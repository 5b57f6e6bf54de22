//! The twelve sidereal signs, thirty degrees each.

use vstd::prelude::*;
use crate::angle::{EclipticLongitude, FULL_CIRCLE};

verus! {

/// Nanodegrees spanned by one sign.
pub const SIGN_SPAN: u64 = 30_000_000_000;

/// Number of signs on the ecliptic.
pub const SIGN_COUNT: u8 = 12;

/// A place on the zodiac: the sign, Aries being 0 and Pisces 11, and the
/// nanodegrees travelled within it.
#[derive(Clone, Copy, Debug, PartialEq, Eq, Structural)]
pub struct ZodiacPosition {
    pub sign_index: u8,
    pub degree_in_sign: u64,
}

impl ZodiacPosition {
    /// The sign exists and the degree does not leave it. The closing
    /// boundary, 30° exactly, belongs to the sign: a rising point that reaches
    /// the end of a sign is placed there and not at 0° of the next. A position
    /// mapped from a longitude stays below 30°.
    pub open spec fn wf(&self) -> bool {
        &&& self.sign_index < SIGN_COUNT
        &&& self.degree_in_sign <= SIGN_SPAN
    }

    /// The longitude this position stands for, in nanodegrees.
    pub open spec fn longitude(&self) -> int {
        self.sign_index * SIGN_SPAN + self.degree_in_sign
    }

    /// Maps a wrapped longitude to its sign and the degree within it.
    pub fn from_longitude(longitude: EclipticLongitude) -> (p: ZodiacPosition)
        requires
            longitude.wf(),
        ensures
            p == zodiac_position(longitude@),
            p.wf(),
            p.degree_in_sign < SIGN_SPAN,
            p.longitude() == longitude@,
    {
        let sign: u64 = longitude.nanodegrees / SIGN_SPAN;
        let degree: u64 = longitude.nanodegrees % SIGN_SPAN;
        ZodiacPosition { sign_index: sign as u8, degree_in_sign: degree }
    }
}

/// Sign and degree of a longitude in `[0°, 360°)`: the sign is the number of
/// whole thirty-degree spans below it, the degree is what is left over.
pub open spec fn zodiac_position(nanodegrees: int) -> ZodiacPosition {
    ZodiacPosition {
        sign_index: (nanodegrees / (SIGN_SPAN as int)) as u8,
        degree_in_sign: (nanodegrees % (SIGN_SPAN as int)) as u64,
    }
}

/// Every wrapped longitude has a position, and the position gives the
/// longitude back exactly: thirty degrees per sign plus the degree within.
pub proof fn lemma_zodiac_position_reconstructs(nanodegrees: int)
    requires
        0 <= nanodegrees < FULL_CIRCLE,
    ensures
        zodiac_position(nanodegrees).sign_index < SIGN_COUNT,
        zodiac_position(nanodegrees).degree_in_sign < SIGN_SPAN,
        zodiac_position(nanodegrees).longitude() == nanodegrees,
{
}

/// Every sign and every degree short of thirty is the position of exactly
/// the longitude it stands for.
pub proof fn lemma_zodiac_position_exhaustive(position: ZodiacPosition)
    requires
        position.sign_index < SIGN_COUNT,
        position.degree_in_sign < SIGN_SPAN,
    ensures
        0 <= position.longitude() < FULL_CIRCLE,
        zodiac_position(position.longitude()) == position,
{
}

} // verus!
