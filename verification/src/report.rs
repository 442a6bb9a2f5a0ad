//! The report of a throw: its sum and extremes, and the line of text that
//! shows them.

use crate::decimal::{append_int, int_text};
use crate::notation::RollSpec;
use crate::roller::{fits_request, RollOutcome};
use vstd::prelude::*;

verus! {

/// The sum of the faces.
pub open spec fn sum_of(values: Seq<i32>) -> int
    decreases values.len(),
{
    if values.len() == 0 {
        0
    } else {
        sum_of(values.drop_last()) + values.last()
    }
}

/// The highest of the faces; zero where there is none.
pub open spec fn max_of(values: Seq<i32>) -> int
    decreases values.len(),
{
    if values.len() == 0 {
        0
    } else if values.len() == 1 {
        values[0] as int
    } else if values.last() > max_of(values.drop_last()) {
        values.last() as int
    } else {
        max_of(values.drop_last())
    }
}

/// The lowest of the faces; zero where there is none.
pub open spec fn min_of(values: Seq<i32>) -> int
    decreases values.len(),
{
    if values.len() == 0 {
        0
    } else if values.len() == 1 {
        values[0] as int
    } else if values.last() < min_of(values.drop_last()) {
        values.last() as int
    } else {
        min_of(values.drop_last())
    }
}

/// `max_of` is the maximum: one of the faces, and no face is above it.
pub proof fn max_of_is_maximum(values: Seq<i32>)
    requires
        values.len() >= 1,
    ensures
        exists|i: int| 0 <= i < values.len() && values[i] == max_of(values),
        forall|i: int| 0 <= i < values.len() ==> values[i] <= max_of(values),
    decreases values.len(),
{
    if values.len() == 1 {
        assert(values[0] == max_of(values));
    } else {
        let front = values.drop_last();
        max_of_is_maximum(front);
        let k = choose|i: int| 0 <= i < front.len() && front[i] == max_of(front);
        assert(front[k] == values[k]);
        if values.last() > max_of(front) {
            assert(values[values.len() - 1] == max_of(values));
        } else {
            assert(values[k] == max_of(values));
        }
        assert forall|i: int| 0 <= i < values.len() implies values[i] <= max_of(values) by {
            if i < front.len() {
                assert(front[i] == values[i]);
            }
        }
    }
}

/// `min_of` is the minimum: one of the faces, and no face is below it.
pub proof fn min_of_is_minimum(values: Seq<i32>)
    requires
        values.len() >= 1,
    ensures
        exists|i: int| 0 <= i < values.len() && values[i] == min_of(values),
        forall|i: int| 0 <= i < values.len() ==> values[i] >= min_of(values),
    decreases values.len(),
{
    if values.len() == 1 {
        assert(values[0] == min_of(values));
    } else {
        let front = values.drop_last();
        min_of_is_minimum(front);
        let k = choose|i: int| 0 <= i < front.len() && front[i] == min_of(front);
        assert(front[k] == values[k]);
        if values.last() < min_of(front) {
            assert(values[values.len() - 1] == min_of(values));
        } else {
            assert(values[k] == min_of(values));
        }
        assert forall|i: int| 0 <= i < values.len() implies values[i] >= min_of(values) by {
            if i < front.len() {
                assert(front[i] == values[i]);
            }
        }
    }
}

/// The sum of at most `n` 32-bit numbers lies within `n` times their range.
proof fn sum_of_bounds(values: Seq<i32>)
    ensures
        -2147483648 * values.len() <= sum_of(values) <= 2147483647 * values.len(),
    decreases values.len(),
{
    if values.len() > 0 {
        sum_of_bounds(values.drop_last());
    }
}

/// Adds up the faces.
pub fn total(values: &Vec<i32>) -> (r: i128)
    ensures
        r == sum_of(values@),
{
    let mut sum: i128 = 0;
    let mut i: usize = 0;
    while i < values.len()
        invariant
            i <= values@.len(),
            sum == sum_of(values@.take(i as int)),
        decreases values@.len() - i,
    {
        proof {
            let next = values@.take(i + 1);
            assert(next.drop_last() =~= values@.take(i as int));
            sum_of_bounds(values@.take(i as int));
        }
        sum = sum + values[i] as i128;
        i = i + 1;
    }
    proof {
        assert(values@.take(i as int) =~= values@);
    }
    sum
}

/// Finds the highest face.
pub fn highest(values: &Vec<i32>) -> (r: i32)
    requires
        values@.len() >= 1,
    ensures
        r == max_of(values@),
{
    let mut best: i32 = values[0];
    let mut i: usize = 1;
    proof {
        assert(values@.take(1).len() == 1);
    }
    while i < values.len()
        invariant
            1 <= i <= values@.len(),
            best == max_of(values@.take(i as int)),
        decreases values@.len() - i,
    {
        proof {
            let next = values@.take(i + 1);
            assert(next.drop_last() =~= values@.take(i as int));
        }
        if values[i] > best {
            best = values[i];
        }
        i = i + 1;
    }
    proof {
        assert(values@.take(i as int) =~= values@);
    }
    best
}

/// Finds the lowest face.
pub fn lowest(values: &Vec<i32>) -> (r: i32)
    requires
        values@.len() >= 1,
    ensures
        r == min_of(values@),
{
    let mut best: i32 = values[0];
    let mut i: usize = 1;
    proof {
        assert(values@.take(1).len() == 1);
    }
    while i < values.len()
        invariant
            1 <= i <= values@.len(),
            best == min_of(values@.take(i as int)),
        decreases values@.len() - i,
    {
        proof {
            let next = values@.take(i + 1);
            assert(next.drop_last() =~= values@.take(i as int));
        }
        if values[i] < best {
            best = values[i];
        }
        i = i + 1;
    }
    proof {
        assert(values@.take(i as int) =~= values@);
    }
    best
}

/// The faces in decimal, in order, with a comma and a blank between two.
pub open spec fn list_items(values: Seq<i32>) -> Seq<char>
    decreases values.len(),
{
    if values.len() == 0 {
        Seq::empty()
    } else if values.len() == 1 {
        int_text(values[0] as int)
    } else {
        list_items(values.drop_last()) + ", "@ + int_text(values.last() as int)
    }
}

/// The faces as a list in square brackets.
pub open spec fn list_text(values: Seq<i32>) -> Seq<char> {
    "["@ + list_items(values) + "]"@
}

/// The report of a throw. Its sum, and for more than one die its highest and
/// lowest face, each with the modifier added; then the faces as thrown,
/// without it.
pub open spec fn outcome_text(values: Seq<i32>, modifier: i32) -> Seq<char> {
    if values.len() > 1 {
        "sum: "@ + int_text(sum_of(values) + modifier) + " | advantage: "@ + int_text(
            max_of(values) + modifier,
        ) + " | disadvantage: "@ + int_text(min_of(values) + modifier) + " | dice: "@ + list_text(
            values,
        )
    } else {
        "sum: "@ + int_text(sum_of(values) + modifier) + " | dice: "@ + list_text(values)
    }
}

/// Writes the faces as a list in square brackets at the end of a text.
pub fn append_list(out: &mut String, values: &Vec<i32>)
    ensures
        final(out)@ == old(out)@ + list_text(values@),
{
    out.append("[");
    let mut i: usize = 0;
    while i < values.len()
        invariant
            i <= values@.len(),
            out@ == old(out)@ + "["@ + list_items(values@.take(i as int)),
        decreases values@.len() - i,
    {
        proof {
            let next = values@.take(i + 1);
            assert(next.drop_last() =~= values@.take(i as int));
            assert(next.last() == values@[i as int]);
        }
        let ghost before = out@;
        if i > 0 {
            out.append(", ");
        }
        append_int(out, values[i] as i128);
        proof {
            let next = values@.take(i + 1);
            let shown = list_items(values@.take(i as int));
            if i > 0 {
                assert(out@ == before + ", "@ + int_text(values@[i as int] as int));
                assert(list_items(next) == shown + ", "@ + int_text(values@[i as int] as int));
            } else {
                assert(shown =~= Seq::<char>::empty());
                assert(next[0] == values@[0]);
                assert(list_items(next) == int_text(values@[0] as int));
            }
            assert(out@ =~= old(out)@ + "["@ + list_items(next));
        }
        i = i + 1;
    }
    out.append("]");
    proof {
        assert(values@.take(i as int) =~= values@);
        assert(out@ =~= old(out)@ + list_text(values@));
    }
}

/// Renders the report of a throw.
pub fn format_outcome(outcome: &RollOutcome) -> (r: String)
    ensures
        r@ == outcome_text(outcome.raw_values@, outcome.modifier),
{
    let values = &outcome.raw_values;
    let modifier: i128 = outcome.modifier as i128;
    let dice: usize = values.len();
    let sum: i128 = total(values);
    proof {
        sum_of_bounds(values@);
    }
    let mut out = String::new();
    out.append("sum: ");
    append_int(&mut out, sum + modifier);
    if dice > 1 {
        out.append(" | advantage: ");
        append_int(&mut out, highest(values) as i128 + modifier);
        out.append(" | disadvantage: ");
        append_int(&mut out, lowest(values) as i128 + modifier);
    }
    out.append(" | dice: ");
    append_list(&mut out, values);
    proof {
        assert(out@ =~= outcome_text(outcome.raw_values@, outcome.modifier));
    }
    out
}

/// The report of one die: the face lies between one and the number of
/// faces, the sum is the face with the modifier added, and the list shows
/// the face alone.
pub proof fn single_die_report(request: RollSpec, values: Seq<i32>)
    requires
        request.valid(),
        request.count == 1,
        fits_request(values, request),
    ensures
        1 <= values[0] <= request.sides,
        outcome_text(values, request.modifier) == "sum: "@ + int_text(
            values[0] + request.modifier,
        ) + " | dice: ["@ + int_text(values[0] as int) + "]"@,
{
    reveal_strlit(" | dice: [");
    reveal_strlit(" | dice: ");
    reveal_strlit("[");
    assert(" | dice: ["@ =~= " | dice: "@ + "["@);
    assert(values.drop_last().len() == 0);
    assert(sum_of(values) == values[0]) by {
        assert(sum_of(values.drop_last()) == 0);
    }
    assert(outcome_text(values, request.modifier) =~= "sum: "@ + int_text(
        values[0] + request.modifier,
    ) + " | dice: ["@ + int_text(values[0] as int) + "]"@);
}

/// The report of several dice: there are as many faces as dice, each
/// between one and the number of faces; the sum shown is their sum with the
/// modifier added, the advantage their highest and the disadvantage their
/// lowest, each with the modifier added; the list shows the faces as thrown.
pub proof fn many_dice_report(request: RollSpec, values: Seq<i32>)
    requires
        request.valid(),
        request.count > 1,
        fits_request(values, request),
    ensures
        values.len() == request.count,
        forall|i: int| 0 <= i < values.len() ==> 1 <= #[trigger] values[i] <= request.sides,
        outcome_text(values, request.modifier) == "sum: "@ + int_text(
            sum_of(values) + request.modifier,
        ) + " | advantage: "@ + int_text(max_of(values) + request.modifier)
            + " | disadvantage: "@ + int_text(min_of(values) + request.modifier) + " | dice: "@
            + list_text(values),
        exists|i: int| 0 <= i < values.len() && values[i] == max_of(values),
        forall|i: int| 0 <= i < values.len() ==> values[i] <= max_of(values),
        exists|i: int| 0 <= i < values.len() && values[i] == min_of(values),
        forall|i: int| 0 <= i < values.len() ==> values[i] >= min_of(values),
{
    max_of_is_maximum(values);
    min_of_is_minimum(values);
}

} // verus!
