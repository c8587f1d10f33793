use vstd::prelude::*;

use crate::color::{Color, Rgb, UnknownColor, named_rgb};

verus! {

/// Gamma shape and scale of a new session, in thousandths.
pub const DEFAULT_GAMMA: i64 = 10_000;

/// The simulation's tunable parameters, read on every tick.
#[derive(Clone, Copy, Debug, PartialEq, Eq, Structural)]
pub struct Settings {
    pub paused: bool,
    pub background: Rgb,
    /// Number of particles the population is filled up to.
    pub max_count: u8,
    /// Largest angular speed, in millionths of a turn per second.
    pub max_speed: u32,
    /// Largest growth rate, in thousandths of a pixel per second.
    pub max_growth_rate: u32,
    /// Shape of the target-radius distribution, in thousandths.
    pub gamma_shape: i64,
    /// Scale of the target-radius distribution, in thousandths of a pixel.
    pub gamma_scale: i64,
}

impl Settings {
    pub open spec fn spec_gamma_is_valid(self) -> bool {
        self.gamma_shape > 0 && self.gamma_scale > 0
    }

    /// Whether the target-radius distribution is defined: both its shape and
    /// its scale are positive.
    pub fn gamma_is_valid(&self) -> (r: bool)
        ensures
            r == self.spec_gamma_is_valid(),
    {
        self.gamma_shape > 0 && self.gamma_scale > 0
    }

    /// The settings a session starts with: running, on the named background,
    /// with the given limits and the default radius distribution. Fails when
    /// the background's name is not a known color.
    pub fn startup(background: Color, max_count: u8, max_speed: u32, max_growth_rate: u32) -> (r: Result<Settings, UnknownColor>)
        ensures
            match named_rgb(background.spec_name()) {
                Some(c) => r == Ok::<Settings, UnknownColor>(Settings {
                    paused: false,
                    background: Rgb { red: c.0, green: c.1, blue: c.2 },
                    max_count,
                    max_speed,
                    max_growth_rate,
                    gamma_shape: DEFAULT_GAMMA,
                    gamma_scale: DEFAULT_GAMMA,
                }),
                None => r is Err && r->Err_0.name@ == background.spec_name(),
            },
    {
        match background.rgb() {
            Ok(bg) => Ok(Settings {
                paused: false,
                background: bg,
                max_count,
                max_speed,
                max_growth_rate,
                gamma_shape: DEFAULT_GAMMA,
                gamma_scale: DEFAULT_GAMMA,
            }),
            Err(e) => Err(e),
        }
    }
}

} // verus!
