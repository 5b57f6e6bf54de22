//! Ecliptic longitudes as whole nanodegrees, and their wrap into one turn.

use vstd::prelude::*;

verus! {

/// Nanodegrees in one degree; clock quantities use the same factor per minute.
pub const UNITS_PER_DEGREE: i64 = 1_000_000_000;

/// Nanodegrees in a full turn of the ecliptic.
pub const FULL_CIRCLE: i64 = 360_000_000_000;

/// The representative in `[0, FULL_CIRCLE)` of an angle given in nanodegrees:
/// a negative angle gains whole turns until it is not, any other loses them.
pub open spec fn wrap360(nanodegrees: int) -> int {
    nanodegrees % (FULL_CIRCLE as int)
}

/// A longitude on the sidereal ecliptic, measured in nanodegrees from 0° Aries.
#[derive(Clone, Copy, Debug, PartialEq, Eq, Structural)]
pub struct EclipticLongitude {
    pub nanodegrees: u64,
}

impl EclipticLongitude {
    /// A reportable longitude lies in `[0°, 360°)`.
    pub open spec fn wf(&self) -> bool {
        self.nanodegrees < FULL_CIRCLE
    }

    /// Takes a count of nanodegrees as a longitude, or as nothing when it is
    /// a full turn or more.
    pub fn new(nanodegrees: u64) -> (r: Option<EclipticLongitude>)
        ensures
            r is Some <==> nanodegrees < FULL_CIRCLE,
            r is Some ==> r->0.nanodegrees == nanodegrees && r->0.wf(),
    {
        if nanodegrees < FULL_CIRCLE as u64 {
            Some(EclipticLongitude { nanodegrees })
        } else {
            None
        }
    }
}

impl View for EclipticLongitude {
    type V = int;

    open spec fn view(&self) -> int {
        self.nanodegrees as int
    }
}

/// Wraps any angle into `[0°, 360°)`.
pub fn normalize360(nanodegrees: i64) -> (r: EclipticLongitude)
    ensures
        r.wf(),
        r@ == wrap360(nanodegrees as int),
{
    let rem: i64 = nanodegrees % FULL_CIRCLE;
    let lifted: i64 = if rem < 0 {
        rem + FULL_CIRCLE
    } else {
        rem
    };
    EclipticLongitude { nanodegrees: lifted as u64 }
}

/// Wrapping lands in `[0°, 360°)` and wrapping twice changes nothing.
pub proof fn lemma_wrap360_idempotent(nanodegrees: int)
    ensures
        0 <= wrap360(nanodegrees) < FULL_CIRCLE,
        wrap360(wrap360(nanodegrees)) == wrap360(nanodegrees),
{
}

/// An angle already in `[0°, 360°)` is its own wrap.
pub proof fn lemma_wrap360_fixes_normalized(nanodegrees: int)
    requires
        0 <= nanodegrees < FULL_CIRCLE,
    ensures
        wrap360(nanodegrees) == nanodegrees,
{
}

/// Whole turns do not change where an angle wraps to.
pub proof fn lemma_wrap360_periodic(nanodegrees: int, turns: int)
    ensures
        wrap360(nanodegrees + turns * FULL_CIRCLE) == wrap360(nanodegrees),
{
    vstd::arithmetic::div_mod::lemma_mod_multiples_vanish(turns, nanodegrees, FULL_CIRCLE as int);
}

} // verus!
