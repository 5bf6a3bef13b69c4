//! Rosette curves in exact arithmetic.
//!
//! A rosette point is drawn at angle `k = angle * factor` degrees with radius
//! `radius * sin(k * n)`. Everything about that point except the final sine
//! and cosine is decided here on integers: the two angles, reduced to one
//! turn, the period after which the curve closes, the sweeps of angles that
//! make up a curve, the animation step and the grey level of a distance.
//!
//! Units: `n` and `d` are held in eighths, angles of the curve in sixty-fourths
//! of a degree, distances in hundredths and grey levels in ten-thousandths.

mod params;
mod phase;

pub use params::{CurveError, LineKind, Params};
pub use phase::{gcd, Phase, TURN};
mod sweep;

pub use sweep::{
    full_revolution, generate_curve, sweep_window, Animation, Frame, INNER_WIDTH, MAX_WIDTH,
    OUTER_WIDTH, REVOLUTION,
};
mod shade;

pub use shade::{ColorMap, DISTANCE_SCALE, LEVEL_MAX};
