//! Whole numbers as decimal text, in both directions.

use vstd::prelude::*;

verus! {

/// Whether a character is one of `0` to `9`.
pub open spec fn is_digit(c: char) -> bool {
    '0' <= c && c <= '9'
}

/// The number that a digit stands for.
pub open spec fn digit_value(c: char) -> int {
    c as int - '0' as int
}

/// Whether a text holds digits only.
pub open spec fn all_digits(s: Seq<char>) -> bool {
    forall|i: int| 0 <= i < s.len() ==> is_digit(#[trigger] s[i])
}

/// The number that a run of digits writes, the empty run writing zero.
pub open spec fn digits_value(s: Seq<char>) -> int
    decreases s.len(),
{
    if s.len() == 0 {
        0
    } else {
        digits_value(s.drop_last()) * 10 + digit_value(s.last())
    }
}

/// Whether a text opens with a sign.
pub open spec fn has_sign(s: Seq<char>) -> bool {
    s.len() > 0 && (s[0] == '-' || s[0] == '+')
}

/// The text behind the sign, or the whole text where there is none.
pub open spec fn unsigned_part(s: Seq<char>) -> Seq<char> {
    if has_sign(s) {
        s.subrange(1, s.len() as int)
    } else {
        s
    }
}

/// The number that a text writes: the digits behind an optional sign, negated
/// under `-`.
pub open spec fn signed_value(s: Seq<char>) -> int {
    if s.len() > 0 && s[0] == '-' {
        -digits_value(unsigned_part(s))
    } else {
        digits_value(unsigned_part(s))
    }
}

/// Whether a text is a 32-bit signed integer in decimal: an optional `+` or
/// `-`, then at least one digit and nothing else, the number within range.
pub open spec fn is_i32_text(s: Seq<char>) -> bool {
    &&& unsigned_part(s).len() > 0
    &&& all_digits(unsigned_part(s))
    &&& i32::MIN <= signed_value(s) <= i32::MAX
}

/// The reading of a text as a 32-bit signed integer, where it is one.
pub open spec fn parse_i32(s: Seq<char>) -> Option<i32> {
    if is_i32_text(s) {
        Some(signed_value(s) as i32)
    } else {
        None
    }
}

/// Reads a text as a 32-bit signed integer in decimal. Leading zeros are
/// taken; blanks, a bare sign, an empty text and a number out of range are
/// not.
pub fn read_i32(s: &Vec<char>) -> (r: Option<i32>)
    ensures
        r == parse_i32(s@),
{
    let n: usize = s.len();
    let signed: bool = n > 0 && (s[0] == '-' || s[0] == '+');
    let negative: bool = n > 0 && s[0] == '-';
    let start: usize = if signed { 1 } else { 0 };
    if start == n {
        return None;
    }
    let ghost body = unsigned_part(s@);
    // `acc` follows the digits read so far until they pass this bound, and
    // then rests one above it.
    let bound: i64 = 2147483648;
    let mut acc: i64 = 0;
    let mut i: usize = start;
    while i < n
        invariant
            n == s@.len(),
            start <= i <= n,
            body == unsigned_part(s@),
            body.len() == n - start,
            forall|k: int| 0 <= k < body.len() ==> body[k] == s@[k + start],
            negative == (s@.len() > 0 && s@[0] == '-'),
            bound == 2147483648,
            all_digits(body.take(i - start)),
            0 <= acc <= bound + 1,
            acc <= bound ==> acc == digits_value(body.take(i - start)),
            acc > bound ==> digits_value(body.take(i - start)) > bound,
        decreases n - i,
    {
        let c: char = s[i];
        if !('0' <= c && c <= '9') {
            proof {
                assert(body[i - start] == c);
                assert(!is_digit(body[i - start]));
            }
            return None;
        }
        let d: i64 = (c as u32 - '0' as u32) as i64;
        proof {
            let before = body.take(i - start);
            let after = body.take(i - start + 1);
            assert(after.drop_last() =~= before);
            assert(after.last() == c);
            assert(digits_value(after) == digits_value(before) * 10 + d);
        }
        if acc <= bound {
            acc = acc * 10 + d;
            if acc > bound {
                acc = bound + 1;
            }
        }
        i = i + 1;
    }
    proof {
        assert(body.take(n - start) =~= body);
    }
    if negative {
        if acc <= bound {
            Some((-acc) as i32)
        } else {
            None
        }
    } else {
        if acc < bound {
            Some(acc as i32)
        } else {
            None
        }
    }
}

/// The character that writes a number below ten.
pub open spec fn digit_char(d: int) -> char {
    if d == 0 {
        '0'
    } else if d == 1 {
        '1'
    } else if d == 2 {
        '2'
    } else if d == 3 {
        '3'
    } else if d == 4 {
        '4'
    } else if d == 5 {
        '5'
    } else if d == 6 {
        '6'
    } else if d == 7 {
        '7'
    } else if d == 8 {
        '8'
    } else {
        '9'
    }
}

/// A natural number in decimal, without leading zeros; zero is `0`.
pub open spec fn nat_text(n: nat) -> Seq<char>
    decreases n,
{
    if n < 10 {
        seq![digit_char(n as int)]
    } else {
        nat_text(n / 10).push(digit_char((n % 10) as int))
    }
}

/// An integer in decimal, with `-` before a negative one.
pub open spec fn int_text(v: int) -> Seq<char> {
    if v < 0 {
        seq!['-'] + nat_text((-v) as nat)
    } else {
        nat_text(v as nat)
    }
}

/// The one-character text of a number below ten.
fn digit_str(d: u128) -> (r: &'static str)
    requires
        d < 10,
    ensures
        r@ == seq![digit_char(d as int)],
{
    proof {
        reveal_strlit("0");
        reveal_strlit("1");
        reveal_strlit("2");
        reveal_strlit("3");
        reveal_strlit("4");
        reveal_strlit("5");
        reveal_strlit("6");
        reveal_strlit("7");
        reveal_strlit("8");
        reveal_strlit("9");
    }
    let r: &'static str = if d == 0 {
        "0"
    } else if d == 1 {
        "1"
    } else if d == 2 {
        "2"
    } else if d == 3 {
        "3"
    } else if d == 4 {
        "4"
    } else if d == 5 {
        "5"
    } else if d == 6 {
        "6"
    } else if d == 7 {
        "7"
    } else if d == 8 {
        "8"
    } else {
        "9"
    };
    proof {
        assert(r@ =~= seq![digit_char(d as int)]);
    }
    r
}

/// Writes a natural number in decimal at the end of a text.
pub fn append_nat(out: &mut String, n: u128)
    ensures
        final(out)@ == old(out)@ + nat_text(n as nat),
    decreases n,
{
    if n >= 10 {
        append_nat(out, n / 10);
    }
    out.append(digit_str(n % 10));
    proof {
        let d = seq![digit_char((n % 10) as int)];
        if n >= 10 {
            assert(nat_text(n as nat) =~= nat_text((n / 10) as nat) + d);
            assert(final(out)@ =~= old(out)@ + nat_text(n as nat));
        }
    }
}

/// Writes an integer in decimal at the end of a text.
pub fn append_int(out: &mut String, v: i128)
    ensures
        final(out)@ == old(out)@ + int_text(v as int),
{
    if v < 0 {
        let below: u128 = (-(v + 1)) as u128;
        out.append("-");
        append_nat(out, below + 1);
        proof {
            reveal_strlit("-");
            assert("-"@ =~= seq!['-']);
            assert(final(out)@ =~= old(out)@ + int_text(v as int));
        }
    } else {
        append_nat(out, v as u128);
    }
}

} // verus!
