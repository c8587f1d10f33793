use vstd::prelude::*;
use vstd::arithmetic::div_mod::{lemma_add_mod_noop, lemma_sub_mod_noop, lemma_mod_self_0};

use crate::units::{lemma_product_fits, Point, MICROS_PER_SECOND, TURN};
use crate::color::Rgba;

verus! {

/// One particle: it orbits `pivot`, grows towards `max_radius` and lives
/// for `time_to_live` more microseconds.
///
/// Its position is `pivot` plus `offset` turned by `angle`: `offset` is the
/// position at spawn relative to the pivot and never changes, so the distance
/// to the pivot is fixed for the particle's whole life.
#[derive(Clone, Copy, Debug, PartialEq, Eq, Structural)]
pub struct Particle {
    pub color: Rgba,
    pub pivot: Point,
    pub offset: Point,
    /// Turn from `offset`, in millionths of a turn, counter-clockwise.
    pub angle: u64,
    /// Current radius, in thousandths of a pixel.
    pub radius: u64,
    /// Target radius, in thousandths of a pixel.
    pub max_radius: u64,
    /// Millionths of a turn per second; the sign is the direction.
    pub angular_speed: i64,
    /// Thousandths of a pixel per second.
    pub growth_rate: u64,
    /// Remaining life, in microseconds.
    pub time_to_live: u64,
}

/// Whole angle units turned at `speed` units per second over `dt` microseconds,
/// rounded towards zero.
pub open spec fn angle_step(speed: i64, dt: u64) -> int {
    if speed >= 0 {
        (speed * dt) / (MICROS_PER_SECOND as int)
    } else {
        -(((-speed) * dt) / (MICROS_PER_SECOND as int))
    }
}

/// Radius after growing for `dt` microseconds, never past the target.
pub open spec fn grown_radius(radius: u64, max_radius: u64, rate: u64, dt: u64) -> int {
    if radius < max_radius {
        let r = radius + (rate * dt) / (MICROS_PER_SECOND as int);
        if r < max_radius { r } else { max_radius as int }
    } else {
        radius as int
    }
}

impl Particle {
    /// The particle's radius stays within its target.
    pub open spec fn wf(self) -> bool {
        self.radius <= self.max_radius
    }

    /// Squared distance from the pivot to the particle, in square pixels.
    pub open spec fn orbit_distance_sq(self) -> int {
        self.offset.x * self.offset.x + self.offset.y * self.offset.y
    }

    pub open spec fn spec_is_alive(self) -> bool {
        self.time_to_live > 0 && self.radius < self.max_radius
    }

    /// The particle after `dt` microseconds.
    pub open spec fn advanced(self, dt: u64) -> Particle {
        Particle {
            time_to_live: if self.time_to_live >= dt { (self.time_to_live - dt) as u64 } else { 0 },
            radius: grown_radius(self.radius, self.max_radius, self.growth_rate, dt) as u64,
            angle: ((self.angle + angle_step(self.angular_speed, dt)) % (TURN as int)) as u64,
            ..self
        }
    }

    /// Live while time remains and the target radius is not reached.
    pub fn is_alive(&self) -> (r: bool)
        ensures
            r == self.spec_is_alive(),
    {
        self.time_to_live > 0 && self.radius < self.max_radius
    }

    /// Advances the particle by `dt` microseconds: the remaining life shrinks
    /// (never below zero), the radius grows towards its target (never past it)
    /// and the particle turns about its pivot.
    pub fn update(&mut self, dt: u64)
        ensures
            *final(self) == old(self).advanced(dt),
    {
        self.time_to_live = if self.time_to_live >= dt { self.time_to_live - dt } else { 0 };

        if self.radius < self.max_radius {
            proof {
                lemma_product_fits(self.growth_rate, dt);
            }
            let grow: u128 = (self.growth_rate as u128) * (dt as u128) / (MICROS_PER_SECOND as u128);
            let room: u64 = self.max_radius - self.radius;
            if grow < room as u128 {
                self.radius = self.radius + grow as u64;
            } else {
                self.radius = self.max_radius;
            }
        }

        let magnitude: u64 = if self.angular_speed >= 0 {
            self.angular_speed as u64
        } else {
            (-(self.angular_speed as i128)) as u64
        };
        proof {
            lemma_product_fits(magnitude, dt);
        }
        let turned: u128 = (magnitude as u128) * (dt as u128) / (MICROS_PER_SECOND as u128);
        let step: u64 = (turned % (TURN as u128)) as u64;
        let base: u64 = self.angle % TURN;
        let ghost a = self.angle as int;
        let ghost t = turned as int;
        if self.angular_speed >= 0 {
            self.angle = (base + step) % TURN;
            proof {
                lemma_add_mod_noop(a, t, TURN as int);
            }
        } else {
            self.angle = (base + (TURN - step)) % TURN;
            proof {
                lemma_sub_mod_noop(a, t, TURN as int);
                lemma_mod_self_0(TURN as int);
                lemma_add_mod_noop(a % (TURN as int) - t % (TURN as int), TURN as int, TURN as int);
            }
        }
    }
}

/// Updating never lengthens a particle's life, never takes it below zero, and
/// never lets a well-formed particle grow past its target.
pub proof fn lemma_update_bounds(p: Particle, dt: u64)
    requires
        p.wf(),
    ensures
        p.advanced(dt).time_to_live <= p.time_to_live,
        p.advanced(dt).radius <= p.advanced(dt).max_radius,
        p.advanced(dt).max_radius == p.max_radius,
        p.advanced(dt).wf(),
{
}

/// Updating keeps the particle's distance to its pivot.
pub proof fn lemma_update_keeps_orbit(p: Particle, dt: u64)
    ensures
        p.advanced(dt).orbit_distance_sq() == p.orbit_distance_sq(),
        p.advanced(dt).pivot == p.pivot,
{
}

/// A well-formed particle is dead exactly when its time is up or it has
/// reached its target radius.
pub proof fn lemma_dead_iff(p: Particle)
    requires
        p.wf(),
    ensures
        !p.spec_is_alive() <==> (p.time_to_live == 0 || p.radius == p.max_radius),
{
}

} // verus!
