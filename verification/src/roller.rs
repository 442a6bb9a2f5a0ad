//! Throwing dice: from random draws to the faces that the dice show.

use crate::engine::random_draw;
use crate::notation::RollSpec;
use vstd::prelude::*;

verus! {

/// What one throw came to: the face of each die in the order thrown, and the
/// modifier of the request.
#[derive(Debug)]
pub struct RollOutcome {
    pub raw_values: Vec<i32>,
    pub modifier: i32,
}

/// The face that a die of `sides` faces shows for a draw: the draw reduced
/// modulo the number of faces, counted from one.
pub open spec fn face(draw: u32, sides: i32) -> int {
    draw as int % sides as int + 1
}

/// The faces that a row of dice shows for a row of draws, die by die.
pub open spec fn faces(draws: Seq<u32>, sides: i32) -> Seq<i32> {
    Seq::new(draws.len(), |i: int| face(draws[i], sides) as i32)
}

/// The faces answer the request: one face per die, each between one and the
/// number of faces.
pub open spec fn fits_request(values: Seq<i32>, request: RollSpec) -> bool {
    &&& values.len() == request.count
    &&& forall|i: int| 0 <= i < values.len() ==> 1 <= #[trigger] values[i] <= request.sides
}

impl RollOutcome {
    /// The outcome answers the request: its faces do, and it carries the
    /// modifier of the request.
    pub open spec fn fits(&self, request: RollSpec) -> bool {
        &&& fits_request(self.raw_values@, request)
        &&& self.modifier == request.modifier
    }

    /// The outcome is the throw that the draws give for the request: as many
    /// dice as draws, each showing the face of its draw.
    pub open spec fn thrown_from(&self, request: RollSpec, draws: Seq<u32>) -> bool {
        &&& self.raw_values@ == faces(draws, request.sides)
        &&& self.modifier == request.modifier
    }
}

/// The face of one die for one draw.
pub fn die_value(draw: u32, sides: i32) -> (v: i32)
    requires
        sides >= 1,
    ensures
        v == face(draw, sides),
        1 <= v <= sides,
        sides == 1 ==> v == 1,
{
    let reduced: u32 = draw % (sides as u32);
    (reduced as i32) + 1
}

/// Throws the dice of a request with the draws given, one draw per die.
pub fn roll_from_draws(request: &RollSpec, draws: &Vec<u32>) -> (r: RollOutcome)
    requires
        request.valid(),
        draws@.len() == request.count,
    ensures
        r.thrown_from(*request, draws@),
        r.fits(*request),
{
    let mut raw_values: Vec<i32> = Vec::new();
    let mut i: usize = 0;
    while i < draws.len()
        invariant
            request.valid(),
            i <= draws@.len(),
            raw_values@.len() == i,
            forall|k: int|
                0 <= k < i ==> #[trigger] raw_values@[k] == face(draws@[k], request.sides),
            forall|k: int| 0 <= k < i ==> 1 <= #[trigger] raw_values@[k] <= request.sides,
        decreases draws@.len() - i,
    {
        raw_values.push(die_value(draws[i], request.sides));
        i = i + 1;
    }
    proof {
        assert(raw_values@ =~= faces(draws@, request.sides));
    }
    RollOutcome { raw_values, modifier: request.modifier }
}

/// Takes one draw per die of a request from the thread's random generator.
pub fn draw_for(request: &RollSpec) -> (draws: Vec<u32>)
    requires
        request.valid(),
    ensures
        draws@.len() == request.count,
{
    let mut draws: Vec<u32> = Vec::new();
    let mut i: i32 = 0;
    while i < request.count
        invariant
            0 <= i <= request.count,
            draws@.len() == i,
        decreases request.count - i,
    {
        draws.push(random_draw());
        i = i + 1;
    }
    draws
}

/// Throws the dice of a request with draws from the thread's random
/// generator. Which faces come up is open; that they are the faces of some
/// draws, one per die, is not.
pub fn roll_dice(request: &RollSpec) -> (r: RollOutcome)
    requires
        request.valid(),
    ensures
        r.fits(*request),
        exists|draws: Seq<u32>| draws.len() == request.count && r.thrown_from(*request, draws),
{
    let draws = draw_for(request);
    let r = roll_from_draws(request, &draws);
    proof {
        assert(draws@.len() == request.count && r.thrown_from(*request, draws@));
    }
    r
}

/// The same draws give the same throw: two outcomes of one request from one
/// list of draws show the same faces in the same order and carry the same
/// modifier.
pub proof fn same_draws_same_outcome(
    request: RollSpec,
    draws: Seq<u32>,
    first: RollOutcome,
    second: RollOutcome,
)
    requires
        first.thrown_from(request, draws),
        second.thrown_from(request, draws),
    ensures
        first.raw_values@ == second.raw_values@,
        first.modifier == second.modifier,
{
}

/// The faces of a request's draws answer the request: there is one per die,
/// and each lies between one and the number of faces.
pub proof fn faces_fit_request(request: RollSpec, draws: Seq<u32>)
    requires
        request.valid(),
        draws.len() == request.count,
    ensures
        fits_request(faces(draws, request.sides), request),
{
    let values = faces(draws, request.sides);
    assert forall|i: int| 0 <= i < values.len() implies 1 <= #[trigger] values[i]
        <= request.sides by {
        assert(values[i] == face(draws[i], request.sides) as i32);
    }
}

/// A die of one face always shows one.
pub proof fn one_sided_die_shows_one(request: RollSpec, values: Seq<i32>)
    requires
        request.valid(),
        request.sides == 1,
        fits_request(values, request),
    ensures
        forall|i: int| 0 <= i < values.len() ==> values[i] == 1,
{
}

} // verus!
