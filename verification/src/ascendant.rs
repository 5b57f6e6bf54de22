//! The Ascendant: the degree of the zodiac rising at the moment of birth,
//! found by walking the signs from the Sun's place at their antonati rates.

use vstd::prelude::*;
use crate::angle::{EclipticLongitude, FULL_CIRCLE};
use crate::fixed::lemma_quotient_bounded;
use crate::location::{local_birth_minutes, local_mean_time, Location};
use crate::zodiac::{zodiac_position, ZodiacPosition, SIGN_COUNT, SIGN_SPAN};

verus! {

/// Local mean time of sunrise, 06:00, in nanominutes since midnight.
pub const SUNRISE: i64 = 360_000_000_000;

/// Nanominutes in a day.
pub const DAY: i64 = 1_440_000_000_000;

/// Ticks in a minute. A tick is a thirtieth of a nanominute: in a sign whose
/// antonati is `a` minutes, the rising point gains one nanodegree every `a`
/// ticks.
pub const TICKS_PER_MINUTE: u64 = 30_000_000_000;

/// Ticks in a day.
pub const DAY_TICKS: u64 = 43_200_000_000_000;

/// The antonati: minutes that each sign takes to rise, Aries first.
pub open spec fn antonati_table() -> Seq<int> {
    seq![120, 96, 72, 120, 144, 168, 168, 144, 120, 72, 96, 120]
}

/// Minutes that a sign takes to rise.
pub open spec fn antonati(sign: int) -> int {
    antonati_table()[sign]
}

/// Ticks that a sign takes to rise.
pub open spec fn sign_ticks(sign: int) -> int {
    antonati(sign) * TICKS_PER_MINUTE
}

/// Minutes that the first `count` signs take to rise together.
pub open spec fn antonati_sum(count: int) -> int
    decreases count,
{
    if count <= 0 {
        0
    } else {
        antonati_sum(count - 1) + antonati(count - 1)
    }
}

/// The sign after a sign, Aries following Pisces.
pub open spec fn next_sign(sign: int) -> int {
    (sign + 1) % (SIGN_COUNT as int)
}

/// Time from sunrise to a local mean time, in nanominutes: a time before
/// sunrise counts from the sunrise of the day before.
pub open spec fn since_sunrise(local: int) -> int {
    if local - SUNRISE < 0 {
        local - SUNRISE + DAY
    } else {
        local - SUNRISE
    }
}

/// Where the rising point is once `ticks` more have run past the end of
/// `sign`: the sign it is in and the ticks it has spent there. Each following
/// sign is entered in turn and left behind only when the ticks exceed its whole
/// rising time, so a point that arrives exactly as a sign ends is still in that
/// sign.
pub open spec fn advance(sign: int, ticks: int) -> (int, int)
    decreases ticks,
{
    let next = next_sign(sign);
    if ticks <= sign_ticks(next) {
        (next, ticks)
    } else {
        advance(next, ticks - sign_ticks(next))
    }
}

/// Signs that the rising point enters on the way that `advance` describes.
pub open spec fn advance_steps(sign: int, ticks: int) -> int
    decreases ticks,
{
    let next = next_sign(sign);
    if ticks <= sign_ticks(next) {
        1
    } else {
        1 + advance_steps(next, ticks - sign_ticks(next))
    }
}

/// Ticks that the `count` signs following `sign` take to rise together.
pub open spec fn span_after(sign: int, count: int) -> int
    decreases count,
{
    if count <= 0 {
        0
    } else {
        sign_ticks(next_sign(sign)) + span_after(next_sign(sign), count - 1)
    }
}

/// The sign `count` places after a sign, going round the zodiac.
pub open spec fn sign_after(sign: int, count: int) -> int {
    (sign + count) % (SIGN_COUNT as int)
}

/// The Ascendant for a Sun at `solar` nanodegrees and `elapsed` nanominutes
/// since sunrise. At sunrise the Sun's own degree is rising. What is left of
/// the Sun's sign takes the part `(30° - degree) / 30°` of the sign's antonati
/// to rise, which in ticks is `(SIGN_SPAN - degree) * antonati`. Up to and
/// including that moment the point moves on within the Sun's sign, by
/// `elapsed / antonati * 30°`; after it the point goes through the following
/// signs, and its degree there is the part of the sign's antonati that it has
/// spent, times 30°. Degrees are rounded down to the nanodegree.
pub open spec fn rising_position(solar: int, elapsed: int) -> ZodiacPosition {
    let sun = zodiac_position(solar);
    let rate = antonati(sun.sign_index as int);
    let ticks = 30 * elapsed;
    let left = (SIGN_SPAN - sun.degree_in_sign) * rate;
    if ticks <= left {
        ZodiacPosition {
            sign_index: sun.sign_index,
            degree_in_sign: (sun.degree_in_sign + ticks / rate) as u64,
        }
    } else {
        let reached = advance(sun.sign_index as int, ticks - left);
        ZodiacPosition {
            sign_index: reached.0 as u8,
            degree_in_sign: (reached.1 / antonati(reached.0)) as u64,
        }
    }
}

/// The Ascendant for a Sun at `solar` nanodegrees, a civil clock reading and
/// a longitude of birth in nanodegrees east.
pub open spec fn ascendant_position(solar: int, hour: int, minute: int, longitude_east: int)
    -> ZodiacPosition {
    rising_position(solar, since_sunrise(local_mean_time(hour, minute, longitude_east)))
}

/// Looks the antonati of a sign up.
pub fn antonati_minutes(sign: u8) -> (minutes: u64)
    requires
        sign < SIGN_COUNT,
    ensures
        minutes == antonati(sign as int),
        72 <= minutes <= 168,
{
    let table: [u64; 12] = [120, 96, 72, 120, 144, 168, 168, 144, 120, 72, 96, 120];
    table[sign as usize]
}

/// Time from the latest sunrise to the birth, in nanominutes.
pub fn minutes_since_sunrise(hour: u32, minute: u32, location: &Location) -> (elapsed: u64)
    requires
        hour <= 23,
        minute <= 59,
        location.wf(),
    ensures
        elapsed == since_sunrise(
            local_mean_time(hour as int, minute as int, location@.longitude_east),
        ),
        elapsed < DAY,
{
    let local: i64 = local_birth_minutes(hour, minute, location);
    let mut elapsed: i64 = local - SUNRISE;
    if elapsed < 0 {
        elapsed = elapsed + DAY;
    }
    elapsed as u64
}

/// Walks the signs from the Sun's place for the time since sunrise.
pub fn rising_position_at(solar: EclipticLongitude, elapsed: u64) -> (position: ZodiacPosition)
    requires
        solar.wf(),
        elapsed < DAY,
    ensures
        position == rising_position(solar@, elapsed as int),
        position.wf(),
{
    let sun: ZodiacPosition = ZodiacPosition::from_longitude(solar);
    let rate: u64 = antonati_minutes(sun.sign_index);
    let ticks: u64 = 30 * elapsed;
    assert((SIGN_SPAN - sun.degree_in_sign) * rate <= 30_000_000_000 * 168) by (nonlinear_arith)
        requires
            0 <= SIGN_SPAN - sun.degree_in_sign <= 30_000_000_000,
            0 <= rate <= 168,
    ;
    let left: u64 = (SIGN_SPAN - sun.degree_in_sign) * rate;
    if ticks <= left {
        proof {
            lemma_quotient_bounded(ticks as int, (SIGN_SPAN - sun.degree_in_sign) as int, rate as int);
        }
        return ZodiacPosition {
            sign_index: sun.sign_index,
            degree_in_sign: sun.degree_in_sign + ticks / rate,
        };
    }
    let mut sign: u8 = sun.sign_index;
    let mut remaining: u64 = ticks - left;
    loop
        invariant
            sun == zodiac_position(solar@),
            ticks == 30 * elapsed,
            left == (SIGN_SPAN - sun.degree_in_sign) * antonati(sun.sign_index as int),
            left < ticks,
            sign < SIGN_COUNT,
            0 < remaining <= ticks,
            advance(sign as int, remaining as int) == advance(
                sun.sign_index as int,
                ticks - left,
            ),
        decreases remaining,
    {
        let ghost left_behind = sign as int;
        sign = (sign + 1) % SIGN_COUNT;
        let minutes: u64 = antonati_minutes(sign);
        let span: u64 = minutes * TICKS_PER_MINUTE;
        assert(sign == next_sign(left_behind) && span == sign_ticks(sign as int));
        if remaining <= span {
            proof {
                assert(advance(left_behind, remaining as int) == (sign as int, remaining as int));
                lemma_quotient_bounded(remaining as int, SIGN_SPAN as int, minutes as int);
            }
            return ZodiacPosition { sign_index: sign, degree_in_sign: remaining / minutes };
        }
        assert(advance(left_behind, remaining as int) == advance(sign as int, remaining - span));
        remaining = remaining - span;
    }
}

/// Computes the Ascendant from the Sun's longitude, the civil clock time of
/// birth and the birthplace.
pub fn ascendant(solar: EclipticLongitude, hour: u32, minute: u32, location: &Location) -> (position:
    ZodiacPosition)
    requires
        solar.wf(),
        hour <= 23,
        minute <= 59,
        location.wf(),
    ensures
        position == ascendant_position(
            solar@,
            hour as int,
            minute as int,
            location@.longitude_east,
        ),
        position.wf(),
{
    let elapsed: u64 = minutes_since_sunrise(hour, minute, location);
    rising_position_at(solar, elapsed)
}

/// The antonati are twelve, each between 72 and 168 minutes.
pub proof fn lemma_antonati_bounds(sign: int)
    requires
        0 <= sign < SIGN_COUNT,
    ensures
        72 <= antonati(sign) <= 168,
        antonati_table().len() == 12,
{
}

/// The antonati add up to the 1440 minutes of a day.
pub proof fn lemma_antonati_sum_is_a_day()
    ensures
        antonati_sum(SIGN_COUNT as int) == 1440,
{
    reveal_with_fuel(antonati_sum, 13);
}

/// The time that a run of signs takes is that of the run without its last
/// sign, and the last sign's own.
pub proof fn lemma_span_after_last(sign: int, count: int)
    requires
        0 <= sign < SIGN_COUNT,
        1 <= count,
    ensures
        span_after(sign, count) == span_after(sign, count - 1) + sign_ticks(
            sign_after(sign, count),
        ),
    decreases count,
{
    let next = next_sign(sign);
    if count > 1 {
        lemma_span_after_last(next, count - 1);
        assert(sign_after(next, count - 1) == sign_after(sign, count));
    } else {
        assert(span_after(next, 0) == 0);
        assert(span_after(sign, 0) == 0);
    }
}

/// The signs from Aries on, counted after Pisces, take the time that the
/// table's first entries add up to.
pub proof fn lemma_span_from_aries(count: int)
    requires
        0 <= count <= SIGN_COUNT,
    ensures
        span_after(SIGN_COUNT - 1, count) == antonati_sum(count) * TICKS_PER_MINUTE,
    decreases count,
{
    if count > 0 {
        lemma_span_from_aries(count - 1);
        lemma_span_after_last(SIGN_COUNT - 1, count);
        assert(sign_after(SIGN_COUNT - 1, count) == count - 1);
        assert((antonati_sum(count - 1) + antonati(count - 1)) * TICKS_PER_MINUTE == antonati_sum(
            count - 1,
        ) * TICKS_PER_MINUTE + antonati(count - 1) * TICKS_PER_MINUTE) by (nonlinear_arith);
    }
}

/// Any twelve signs in a row take a day to rise.
pub proof fn lemma_zodiac_rises_in_a_day(sign: int)
    requires
        0 <= sign < SIGN_COUNT,
    ensures
        span_after(sign, SIGN_COUNT as int) == DAY_TICKS,
    decreases SIGN_COUNT - sign,
{
    if sign == SIGN_COUNT - 1 {
        lemma_span_from_aries(SIGN_COUNT as int);
        lemma_antonati_sum_is_a_day();
    } else {
        // The twelve signs after `sign` are those after its successor, taken
        // in another order: the first of the one run is the last of the other.
        let next = next_sign(sign);
        lemma_zodiac_rises_in_a_day(next);
        lemma_span_after_last(next, SIGN_COUNT as int);
        assert(sign_after(next, SIGN_COUNT as int) == next);
    }
}

/// A stretch of time that the next `count` signs cover is walked in at most
/// `count` steps.
pub proof fn lemma_advance_within(sign: int, ticks: int, count: int)
    requires
        0 <= sign < SIGN_COUNT,
        0 < ticks <= span_after(sign, count),
    ensures
        1 <= advance_steps(sign, ticks) <= count,
    decreases count,
{
    let next = next_sign(sign);
    lemma_antonati_bounds(next);
    if ticks > sign_ticks(next) {
        lemma_advance_within(next, ticks - sign_ticks(next), count - 1);
    }
}

/// The scan is bounded: for a birth less than a day after sunrise it ends
/// in one of the twelve signs that follow the Sun's, without coming round to a
/// thirteenth.
pub proof fn lemma_scan_ends_within_twelve_signs(solar: int, elapsed: int)
    requires
        0 <= solar < FULL_CIRCLE,
        0 <= elapsed < DAY,
    ensures
        ({
            let sun = zodiac_position(solar);
            let left = (SIGN_SPAN - sun.degree_in_sign) * antonati(sun.sign_index as int);
            30 * elapsed > left ==> 1 <= advance_steps(sun.sign_index as int, 30 * elapsed - left)
                <= SIGN_COUNT
        }),
{
    let sun = zodiac_position(solar);
    let sign = sun.sign_index as int;
    lemma_antonati_bounds(sign);
    let left = (SIGN_SPAN - sun.degree_in_sign) * antonati(sign);
    assert(left >= 0) by (nonlinear_arith)
        requires
            left == (SIGN_SPAN - sun.degree_in_sign) * antonati(sign),
            SIGN_SPAN - sun.degree_in_sign >= 0,
            antonati(sign) >= 0,
    ;
    if 30 * elapsed > left {
        lemma_zodiac_rises_in_a_day(sign);
        lemma_advance_within(sign, 30 * elapsed - left, SIGN_COUNT as int);
    }
}

/// What the walk amounts to: after `k` steps the point is in the `k`-th sign
/// after the one it left, and the time walked is the whole rising time of the
/// signs passed through plus the ticks spent in the last, which are at least
/// one and at most that sign's rising time.
pub proof fn lemma_advance_accounts_for_time(sign: int, ticks: int)
    requires
        0 <= sign < SIGN_COUNT,
        0 < ticks,
    ensures
        ({
            let steps = advance_steps(sign, ticks);
            let reached = advance(sign, ticks);
            &&& steps >= 1
            &&& reached.0 == sign_after(sign, steps)
            &&& ticks == span_after(sign, steps - 1) + reached.1
            &&& 0 < reached.1 <= sign_ticks(reached.0)
        }),
    decreases ticks,
{
    let next = next_sign(sign);
    lemma_antonati_bounds(next);
    if ticks > sign_ticks(next) {
        let rest = ticks - sign_ticks(next);
        lemma_advance_accounts_for_time(next, rest);
        let steps = advance_steps(next, rest);
        assert(sign_after(next, steps) == sign_after(sign, steps + 1));
    }
}

/// Arriving exactly as a sign has finished rising leaves the point in that
/// sign, with all of its rising time spent.
pub proof fn lemma_advance_stops_on_boundary(sign: int, count: int)
    requires
        0 <= sign < SIGN_COUNT,
        1 <= count,
    ensures
        advance(sign, span_after(sign, count)) == (
            sign_after(sign, count),
            sign_ticks(sign_after(sign, count)),
        ),
    decreases count,
{
    let next = next_sign(sign);
    lemma_antonati_bounds(next);
    if count > 1 {
        lemma_advance_stops_on_boundary(next, count - 1);
        lemma_span_after_positive(next, count - 1);
        assert(sign_after(next, count - 1) == sign_after(sign, count));
    } else {
        assert(span_after(next, 0) == 0);
    }
}

/// At least one sign takes time to rise.
pub proof fn lemma_span_after_positive(sign: int, count: int)
    requires
        0 <= sign < SIGN_COUNT,
        1 <= count,
    ensures
        span_after(sign, count) > 0,
    decreases count,
{
    let next = next_sign(sign);
    lemma_antonati_bounds(next);
    if count > 1 {
        lemma_span_after_positive(next, count - 1);
    } else {
        assert(span_after(next, 0) == 0);
    }
}

/// The tie-break at a sign boundary: a birth at the very moment at which
/// a sign has finished rising, be it the Sun's own or the `count`-th after it,
/// has its Ascendant at 30° of that sign and not at 0° of the next.
pub proof fn lemma_boundary_stays_in_sign(solar: int, elapsed: int, count: int)
    requires
        0 <= solar < FULL_CIRCLE,
        0 <= elapsed,
        0 <= count,
        30 * elapsed == (SIGN_SPAN - zodiac_position(solar).degree_in_sign) * antonati(
            zodiac_position(solar).sign_index as int,
        ) + span_after(zodiac_position(solar).sign_index as int, count),
    ensures
        rising_position(solar, elapsed) == (ZodiacPosition {
            sign_index: sign_after(zodiac_position(solar).sign_index as int, count) as u8,
            degree_in_sign: SIGN_SPAN,
        }),
{
    let sun = zodiac_position(solar);
    let sign = sun.sign_index as int;
    let rate = antonati(sign);
    lemma_antonati_bounds(sign);
    let rest = (SIGN_SPAN - sun.degree_in_sign) as int;
    if count == 0 {
        assert(span_after(sign, 0) == 0);
        vstd::arithmetic::div_mod::lemma_div_by_multiple(rest, rate);
    } else {
        lemma_span_after_positive(sign, count);
        lemma_advance_stops_on_boundary(sign, count);
        let last = sign_after(sign, count);
        lemma_antonati_bounds(last);
        vstd::arithmetic::div_mod::lemma_div_by_multiple(TICKS_PER_MINUTE as int, antonati(last));
        assert(sign_ticks(last) == TICKS_PER_MINUTE * antonati(last)) by (nonlinear_arith)
            requires
                sign_ticks(last) == antonati(last) * TICKS_PER_MINUTE,
        ;
    }
}

} // verus!
