//! Dice notation: the grammar of a request, and the request that a text holds.

use crate::decimal::{parse_i32, read_i32};
use crate::engine::{capture_groups, captures, compile, compiles, source_of, texts_of};
use regex::Regex;
use vstd::prelude::*;

verus! {

/// A request for one throw: `count` dice of `sides` faces each, and a number
/// to add to what they show.
#[derive(Clone, Copy, Debug, PartialEq, Eq, Structural)]
pub struct RollSpec {
    pub count: i32,
    pub sides: i32,
    pub modifier: i32,
}

impl RollSpec {
    /// A request asks for at least one die, of at least one face.
    pub open spec fn valid(&self) -> bool {
        self.count >= 1 && self.sides >= 1
    }

    /// Whether the request is valid.
    pub fn is_valid(&self) -> (r: bool)
        ensures
            r == self.valid(),
    {
        self.count >= 1 && self.sides >= 1
    }
}

/// The grammar of a request, anywhere in a text: blanks, then an optional
/// count before a `d`, the number of faces, and an optional signed modifier.
/// No number starts with a zero. Group 2 is the count, group 3 the faces,
/// group 5 the modifier.
pub open spec fn dice_pattern() -> Seq<char> {
    r"\s*(([1-9][0-9]*)d)?([1-9][0-9]*)(([+-][1-9][0-9]*))?"@
}

/// The number that a capture group writes, or `default` where the match has
/// no such group, the group took no part in it, or its text is no 32-bit
/// integer.
pub open spec fn group_number(groups: Seq<Option<Seq<char>>>, index: int, default: i32) -> i32 {
    if 0 <= index < groups.len() {
        match groups[index] {
            Some(text) => match parse_i32(text) {
                Some(v) => v,
                None => default,
            },
            None => default,
        }
    } else {
        default
    }
}

/// A count of dice or of faces: `v` where it is at least one, else `default`.
pub open spec fn positive_or(v: i32, default: i32) -> i32 {
    if v >= 1 {
        v
    } else {
        default
    }
}

/// The request that the groups of a match make: one die where no count can
/// be read, ten faces where no size can be read, nothing added where no
/// modifier can be read.
pub open spec fn spec_of_groups(groups: Seq<Option<Seq<char>>>) -> RollSpec {
    RollSpec {
        count: positive_or(group_number(groups, 2, 1), 1),
        sides: positive_or(group_number(groups, 3, 10), 10),
        modifier: group_number(groups, 5, 0),
    }
}

/// The request that a text holds: that of the leftmost match of the grammar,
/// or none where the grammar matches nowhere in the text.
pub open spec fn parsed(text: Seq<char>) -> Option<RollSpec> {
    match capture_groups(dice_pattern(), text) {
        Some(groups) => Some(spec_of_groups(groups)),
        None => None,
    }
}

/// Reads one capture group as a number, with a default for a group that is
/// missing or does not read as one.
pub fn convert_capture(groups: &Vec<Option<Vec<char>>>, index: usize, default: i32) -> (r: i32)
    ensures
        r == group_number(texts_of(groups@), index as int, default),
{
    if index < groups.len() {
        match &groups[index] {
            Some(text) => match read_i32(text) {
                Some(v) => v,
                None => default,
            },
            None => default,
        }
    } else {
        default
    }
}

/// Turns the groups of a match into a request. A count or a size below one,
/// which the grammar never captures, is read as missing.
pub fn spec_from_groups(groups: &Vec<Option<Vec<char>>>) -> (r: RollSpec)
    ensures
        r == spec_of_groups(texts_of(groups@)),
        r.valid(),
{
    let count: i32 = convert_capture(groups, 2, 1);
    let sides: i32 = convert_capture(groups, 3, 10);
    let modifier: i32 = convert_capture(groups, 5, 0);
    RollSpec {
        count: if count >= 1 { count } else { 1 },
        sides: if sides >= 1 { sides } else { 10 },
        modifier,
    }
}

/// Every request that a text holds is valid.
pub proof fn parsed_is_valid(text: Seq<char>)
    ensures
        parsed(text) matches Some(request) ==> request.valid(),
{
}

/// The compiled grammar. Compile it once and share it: reading a text does
/// not change it.
pub struct Notation {
    engine: Regex,
}

impl Notation {
    #[verifier::type_invariant]
    spec fn holds_dice_pattern(&self) -> bool {
        source_of(self.engine) == dice_pattern()
    }

    /// The pattern that this grammar was compiled from.
    pub closed spec fn pattern(&self) -> Seq<char> {
        source_of(self.engine)
    }

    /// Compiles the grammar. There is one exactly where the engine compiles
    /// the dice pattern.
    pub fn new() -> (r: Option<Notation>)
        ensures
            r.is_some() == compiles(dice_pattern()),
            r matches Some(grammar) ==> grammar.pattern() == dice_pattern(),
    {
        Notation::from_compiled(
            compile(r"\s*(([1-9][0-9]*)d)?([1-9][0-9]*)(([+-][1-9][0-9]*))?"),
        )
    }

    /// Makes the grammar of what the engine compiled from the pattern: there
    /// is a grammar exactly where the engine gave an expression, and it holds
    /// that expression.
    pub(crate) fn from_compiled(compiled: Option<Regex>) -> (r: Option<Notation>)
        requires
            compiled matches Some(engine) ==> source_of(engine) == dice_pattern(),
        ensures
            r.is_some() == compiled.is_some(),
            r matches Some(grammar) ==> compiled == Some(grammar.expression())
                && grammar.pattern() == dice_pattern(),
    {
        match compiled {
            Some(engine) => Some(Notation { engine }),
            None => None,
        }
    }

    /// The compiled expression that this grammar holds.
    pub closed spec fn expression(&self) -> Regex {
        self.engine
    }

    /// The capture groups of the leftmost match of the grammar in a text.
    pub fn find(&self, text: &str) -> (r: Option<Vec<Option<Vec<char>>>>)
        ensures
            match r {
                Some(groups) => capture_groups(dice_pattern(), text@) == Some(texts_of(groups@)),
                None => capture_groups(dice_pattern(), text@).is_none(),
            },
    {
        proof {
            use_type_invariant(self);
        }
        captures(&self.engine, text)
    }

    /// Reads the first request in a text, if it holds one.
    pub fn parse(&self, text: &str) -> (r: Option<RollSpec>)
        ensures
            r == parsed(text@),
            r matches Some(request) ==> request.valid(),
    {
        match self.find(text) {
            Some(groups) => Some(spec_from_groups(&groups)),
            None => None,
        }
    }
}

} // verus!
