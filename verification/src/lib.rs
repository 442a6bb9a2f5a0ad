//! Dice notation: reading a request such as `2d6` or `1d8+1` out of a line of
//! text, throwing the dice, and reporting the throws in one line of text.

pub mod decimal;
pub mod engine;
pub mod notation;
pub mod report;
pub mod roller;

use crate::decimal::int_text;
use crate::notation::{parsed, Notation, RollSpec};
use crate::report::{
    format_outcome, list_text, many_dice_report, max_of, min_of, outcome_text, single_die_report,
    sum_of,
};
use crate::roller::{faces, faces_fit_request, fits_request, roll_dice, roll_from_draws};
use vstd::prelude::*;

verus! {

/// The answer to a text that holds no request.
pub open spec fn help_text() -> Seq<char> {
    "Please provide a set of dice (e.g., 2d6 or 1d8+1)"@
}

/// The word that a message starts with when it asks for a throw.
pub open spec fn command_word() -> Seq<char> {
    "!roll"@
}

/// The answer to what was read from a text when the dice fall as the draws
/// say: the help text where no request was read, else the report of the
/// throw.
pub open spec fn answer_text(found: Option<RollSpec>, draws: Seq<u32>) -> Seq<char> {
    match found {
        Some(request) => outcome_text(faces(draws, request.sides), request.modifier),
        None => help_text(),
    }
}

/// Whether `answer` answers `text` for some fall of the dice: one draw for
/// each die of the request that the text holds.
pub open spec fn answers(text: Seq<char>, answer: Seq<char>) -> bool {
    match parsed(text) {
        Some(request) => exists|draws: Seq<u32>|
            draws.len() == request.count && answer == answer_text(Some(request), draws),
        None => answer == help_text(),
    }
}

/// Every answer to a text that holds a request is the report of a throw that
/// answers the request: one face per die, each between one and the number of
/// faces.
pub proof fn answer_reports_a_throw(text: Seq<char>, answer: Seq<char>)
    requires
        parsed(text).is_some(),
        answers(text, answer),
    ensures
        exists|values: Seq<i32>|
            fits_request(values, parsed(text).unwrap()) && answer == outcome_text(
                values,
                parsed(text).unwrap().modifier,
            ),
{
    let request = parsed(text).unwrap();
    let draws = choose|draws: Seq<u32>|
        draws.len() == request.count && answer == answer_text(Some(request), draws);
    faces_fit_request(request, draws);
    let values = faces(draws, request.sides);
    assert(fits_request(values, request) && answer == outcome_text(values, request.modifier));
}

/// The answer to a request for one die shows one face between one and the
/// number of faces: as the sum with the modifier added, and alone in the
/// list.
pub proof fn single_die_answer(text: Seq<char>, answer: Seq<char>)
    requires
        parsed(text) matches Some(request) && request.count == 1,
        answers(text, answer),
    ensures
        exists|v: int|
            1 <= v <= parsed(text).unwrap().sides && answer == "sum: "@ + int_text(
                v + parsed(text).unwrap().modifier,
            ) + " | dice: ["@ + #[trigger] int_text(v) + "]"@,
{
    let request = parsed(text).unwrap();
    answer_reports_a_throw(text, answer);
    let values = choose|values: Seq<i32>|
        fits_request(values, request) && answer == outcome_text(values, request.modifier);
    single_die_report(request, values);
    let v = values[0] as int;
    assert(1 <= v <= request.sides && answer == "sum: "@ + int_text(v + request.modifier)
        + " | dice: ["@ + int_text(v) + "]"@);
}

/// The answer to a request for several dice shows as many faces as dice,
/// each between one and the number of faces and in the order thrown, and
/// before them their sum, their highest and their lowest, each with the
/// modifier added.
pub proof fn many_dice_answer(text: Seq<char>, answer: Seq<char>)
    requires
        parsed(text) matches Some(request) && request.count > 1,
        answers(text, answer),
    ensures
        exists|values: Seq<i32>|
            fits_request(values, parsed(text).unwrap()) && answer == "sum: "@ + int_text(
                sum_of(values) + parsed(text).unwrap().modifier,
            ) + " | advantage: "@ + int_text(max_of(values) + parsed(text).unwrap().modifier)
                + " | disadvantage: "@ + int_text(
                min_of(values) + parsed(text).unwrap().modifier,
            ) + " | dice: "@ + list_text(values),
{
    let request = parsed(text).unwrap();
    answer_reports_a_throw(text, answer);
    let values = choose|values: Seq<i32>|
        fits_request(values, request) && answer == outcome_text(values, request.modifier);
    many_dice_report(request, values);
    assert(fits_request(values, request) && answer == "sum: "@ + int_text(
        sum_of(values) + request.modifier,
    ) + " | advantage: "@ + int_text(max_of(values) + request.modifier) + " | disadvantage: "@
        + int_text(min_of(values) + request.modifier) + " | dice: "@ + list_text(values));
}

/// Answers what was read from a text, with the draws given for the dice.
pub fn answer_with(found: Option<RollSpec>, draws: &Vec<u32>) -> (r: String)
    requires
        found matches Some(request) ==> request.valid() && draws@.len() == request.count,
    ensures
        r@ == answer_text(found, draws@),
{
    match found {
        Some(request) => {
            let outcome = roll_from_draws(&request, draws);
            format_outcome(&outcome)
        },
        None => String::from_str("Please provide a set of dice (e.g., 2d6 or 1d8+1)"),
    }
}

/// Reads the first request in a text, throws its dice and reports the throw;
/// answers with the help text where the text holds no request.
pub fn roll(grammar: &Notation, text: &str) -> (r: String)
    ensures
        answers(text@, r@),
{
    match grammar.parse(text) {
        Some(request) => {
            let outcome = roll_dice(&request);
            let r = format_outcome(&outcome);
            proof {
                let draws = choose|draws: Seq<u32>|
                    draws.len() == request.count && outcome.thrown_from(request, draws);
                assert(draws.len() == request.count && r@ == answer_text(Some(request), draws));
            }
            r
        },
        None => String::from_str("Please provide a set of dice (e.g., 2d6 or 1d8+1)"),
    }
}

/// Whether a message asks for a throw: it starts with the command word.
pub fn is_command(text: &str) -> (r: bool)
    ensures
        r == command_word().is_prefix_of(text@),
{
    proof {
        reveal_strlit("!roll");
    }
    if text.unicode_len() < 5 {
        return false;
    }
    let r = text.get_char(0) == '!' && text.get_char(1) == 'r' && text.get_char(2) == 'o'
        && text.get_char(3) == 'l' && text.get_char(4) == 'l';
    proof {
        if r {
            assert(command_word() =~= text@.subrange(0, 5));
        } else {
            let head = text@.subrange(0, 5);
            assert(head[0] == text@[0] && head[1] == text@[1] && head[2] == text@[2] && head[3]
                == text@[3] && head[4] == text@[4]);
            assert(command_word()[0] == '!' && command_word()[1] == 'r' && command_word()[2]
                == 'o' && command_word()[3] == 'l' && command_word()[4] == 'l');
            assert(command_word() != head);
        }
    }
    r
}

/// Answers a message: with a throw or the help text where the message asks
/// for a throw, and not at all where it does not.
pub fn reply(grammar: &Notation, message: &str) -> (r: Option<String>)
    ensures
        r.is_some() == command_word().is_prefix_of(message@),
        r matches Some(answer) ==> answers(message@, answer@),
{
    if is_command(message) {
        Some(roll(grammar, message))
    } else {
        None
    }
}

} // verus!
