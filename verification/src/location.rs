//! The birthplace: a label and a longitude, from which local mean time follows.

use vstd::prelude::*;

verus! {

/// Longitude of the meridian that civil time is kept on, 105° east, in
/// nanodegrees.
pub const REFERENCE_MERIDIAN: i64 = 105_000_000_000;

/// Westernmost longitude served, 165° west. Further west, local mean time
/// lies more than eighteen hours behind the civil clock, and a birth on the
/// stroke of midnight would fall before the sunrise of the previous day.
pub const WESTERN_LIMIT: i64 = -165_000_000_000;

/// Easternmost longitude served, 180° east.
pub const EASTERN_LIMIT: i64 = 180_000_000_000;

/// Nanominutes of clock time in an hour.
pub const NANOMINUTES_PER_HOUR: i64 = 60_000_000_000;

/// Nanominutes of clock time in a minute.
pub const NANOMINUTES_PER_MINUTE: i64 = 1_000_000_000;

/// A birthplace: a display label and the longitude east of Greenwich in
/// nanodegrees.
#[derive(Clone, Debug)]
pub struct Location {
    pub name: String,
    pub longitude_east: i64,
}

/// What a location is to the calculation.
pub struct LocationView {
    pub name: Seq<char>,
    pub longitude_east: int,
}

impl View for Location {
    type V = LocationView;

    open spec fn view(&self) -> LocationView {
        LocationView { name: self.name@, longitude_east: self.longitude_east as int }
    }
}

/// Whether a longitude, in nanodegrees east, lies in the range served.
pub open spec fn longitude_in_range(longitude_east: int) -> bool {
    WESTERN_LIMIT <= longitude_east <= EASTERN_LIMIT
}

/// Nanominutes by which local mean time at a longitude lags the civil clock:
/// four minutes for every degree west of the reference meridian, negative to
/// the east of it.
pub open spec fn lmt_offset(longitude_east: int) -> int {
    (REFERENCE_MERIDIAN - longitude_east) * 4
}

/// Local mean time of a civil clock reading at a longitude, in nanominutes
/// since civil midnight. It is negative where local mean time is still in the
/// previous day.
pub open spec fn local_mean_time(hour: int, minute: int, longitude_east: int) -> int {
    hour * NANOMINUTES_PER_HOUR + minute * NANOMINUTES_PER_MINUTE - lmt_offset(longitude_east)
}

impl Location {
    /// The longitude lies in the range served.
    pub open spec fn wf(&self) -> bool {
        longitude_in_range(self.longitude_east as int)
    }

    /// Builds a location, or nothing when the longitude is out of range.
    pub fn new(name: String, longitude_east: i64) -> (r: Option<Location>)
        ensures
            r is Some <==> longitude_in_range(longitude_east as int),
            r is Some ==> r->0@ == (LocationView {
                name: name@,
                longitude_east: longitude_east as int,
            }),
            r is Some ==> r->0.wf(),
    {
        if longitude_east < WESTERN_LIMIT || longitude_east > EASTERN_LIMIT {
            None
        } else {
            Some(Location { name, longitude_east })
        }
    }
}

/// The lag of local mean time behind the civil clock, in nanominutes.
pub fn lmt_offset_minutes(location: &Location) -> (offset: i64)
    requires
        location.wf(),
    ensures
        offset == lmt_offset(location@.longitude_east),
{
    (REFERENCE_MERIDIAN - location.longitude_east) * 4
}

/// Local mean time of birth, in nanominutes since civil midnight.
pub fn local_birth_minutes(hour: u32, minute: u32, location: &Location) -> (local: i64)
    requires
        hour <= 23,
        minute <= 59,
        location.wf(),
    ensures
        local == local_mean_time(hour as int, minute as int, location@.longitude_east),
{
    (hour as i64) * NANOMINUTES_PER_HOUR + (minute as i64) * NANOMINUTES_PER_MINUTE
        - lmt_offset_minutes(location)
}

} // verus!
