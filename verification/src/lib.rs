//! Sidereal birth-chart arithmetic in the Thai Suriyayart tradition.
//!
//! Every quantity is an exact integer: angles count nanodegrees, clock
//! offsets count nanominutes and instants count whole minutes of Julian Day.
//! Results that are not integral are rounded down to the unit, and each
//! contract says so.

pub mod fixed;
pub mod angle;
pub mod zodiac;
pub mod calendar;
pub mod julian;
pub mod solar;
pub mod mean_motion;
pub mod anomaly;
pub mod location;
pub mod ascendant;
pub mod chart;
pub mod kepler;
pub mod planets;
