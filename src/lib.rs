//! A population of growing, orbiting, short-lived particles, with the
//! histograms that describe it.
//!
//! Every quantity is an integer in a fixed unit: time in microseconds,
//! lengths in thousandths of a pixel, angles in millionths of a turn.

mod units;
pub mod color;
pub mod particle;
pub mod histogram;
pub mod settings;
pub mod random;
pub mod population;
pub mod diagnostics;

pub use units::{Point, INITIAL_RADIUS, MAX_RADIUS_LIMIT, MICROS_PER_SECOND, TURN};
pub use color::{Color, Rgb, Rgba, UnknownColor};
pub use particle::Particle;
pub use histogram::{Bucket, BUCKET_COUNT};
pub use settings::Settings;
pub use population::{PopulationManager, TickOutcome};
pub use diagnostics::{Diagnostics, DiagnosticsView};
