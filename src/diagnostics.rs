use vstd::prelude::*;

use crate::histogram::{build, build_with_max, effective_max, histogram, max_sample, seq_max, Bucket};
use crate::particle::Particle;
use crate::population::PopulationManager;
use crate::settings::Settings;

verus! {

/// Axis limit that a new view starts with, in pixels.
pub const INITIAL_X_LIMIT: u64 = 100;

/// Thousandths of a pixel in a pixel.
pub const MILLIS_PER_PIXEL: u64 = 1_000;

/// The limit after one frame without a larger sample: 99.5% of it, rounded down.
pub open spec fn decayed(prev: u64) -> u64 {
    ((prev as int * 995) / 1000) as u64
}

/// The limit after a frame whose largest sample is `observed`.
pub open spec fn next_limit(prev: u64, observed: u64) -> u64 {
    if observed > decayed(prev) { observed } else { decayed(prev) }
}

pub open spec fn speed_of(p: Particle) -> u64 {
    if p.angular_speed >= 0 { p.angular_speed as u64 } else { (-(p.angular_speed as int)) as u64 }
}

/// How fast each particle turns, in millionths of a turn per second.
pub open spec fn speed_samples(s: Seq<Particle>) -> Seq<u64> {
    Seq::new(s.len(), |i: int| speed_of(s[i]))
}

/// Each particle's radius, in whole pixels.
pub open spec fn radius_samples(s: Seq<Particle>) -> Seq<u64> {
    Seq::new(s.len(), |i: int| s[i].radius / MILLIS_PER_PIXEL)
}

/// Each particle's target radius, in whole pixels.
pub open spec fn max_radius_samples(s: Seq<Particle>) -> Seq<u64> {
    Seq::new(s.len(), |i: int| s[i].max_radius / MILLIS_PER_PIXEL)
}

/// The axis end that both radius histograms share.
pub open spec fn radius_axis(s: Seq<Particle>) -> u64 {
    let a = seq_max(radius_samples(s));
    let b = seq_max(max_radius_samples(s));
    if a > b { a } else { b }
}

/// The histograms of one frame.
pub struct Diagnostics {
    /// How fast the particles turn.
    pub speed: Vec<Bucket>,
    /// The particles' radii, on the shared radius axis.
    pub radius: Vec<Bucket>,
    /// The particles' target radii, on the shared radius axis.
    pub max_radius: Vec<Bucket>,
    /// Where the radius plot's axis ends.
    pub x_limit: u64,
    /// Where the speed plot's axis ends: the largest speed the settings allow.
    pub speed_axis: u32,
}

/// Derives the histograms from the population, frame by frame, and keeps
/// the radius plot's axis limit from one frame to the next.
pub struct DiagnosticsView {
    pub x_limit: u64,
}

impl DiagnosticsView {
    /// A view whose axis limit starts at `INITIAL_X_LIMIT`.
    pub fn new() -> (r: DiagnosticsView)
        ensures
            r.x_limit == INITIAL_X_LIMIT,
    {
        DiagnosticsView { x_limit: INITIAL_X_LIMIT }
    }

    /// Lets the axis limit decay by half a percent, or jump to `observed`
    /// when that is larger.
    pub fn observe(&mut self, observed: u64)
        ensures
            final(self).x_limit == next_limit(old(self).x_limit, observed),
    {
        let decayed: u64 = ((self.x_limit as u128) * 995 / 1000) as u64;
        self.x_limit = if observed > decayed { observed } else { decayed };
    }

    /// The histograms of the population: speeds over their own range, radii
    /// and target radii over one shared range; the axis limit follows the end
    /// of that shared range, and the speed axis follows the settings.
    pub fn refresh(&mut self, population: &PopulationManager, settings: &Settings) -> (d: Diagnostics)
        ensures
            d.speed@ == histogram(speed_samples(population@), seq_max(speed_samples(population@))),
            d.radius@ == histogram(radius_samples(population@), effective_max(radius_samples(population@), radius_axis(population@))),
            d.max_radius@ == histogram(max_radius_samples(population@), effective_max(max_radius_samples(population@), radius_axis(population@))),
            final(self).x_limit == next_limit(old(self).x_limit, radius_axis(population@)),
            d.x_limit == final(self).x_limit,
            d.speed_axis == settings.max_speed,
    {
        let ps = population.particles();
        let mut speeds: Vec<u64> = Vec::new();
        let mut radii: Vec<u64> = Vec::new();
        let mut targets: Vec<u64> = Vec::new();
        let mut j: usize = 0;
        while j < ps.len()
            invariant
                j <= ps@.len(),
                speeds@.len() == j && radii@.len() == j && targets@.len() == j,
                forall|i: int| 0 <= i < j ==> speeds@[i] == speed_of(#[trigger] ps@[i]),
                forall|i: int| 0 <= i < j ==> radii@[i] == (#[trigger] ps@[i]).radius / MILLIS_PER_PIXEL,
                forall|i: int| 0 <= i < j ==> targets@[i] == (#[trigger] ps@[i]).max_radius / MILLIS_PER_PIXEL,
            decreases ps@.len() - j,
        {
            let p = ps[j];
            let s: u64 = if p.angular_speed >= 0 {
                p.angular_speed as u64
            } else {
                (-(p.angular_speed as i128)) as u64
            };
            speeds.push(s);
            radii.push(p.radius / MILLIS_PER_PIXEL);
            targets.push(p.max_radius / MILLIS_PER_PIXEL);
            j = j + 1;
        }
        proof {
            assert(speeds@ =~= speed_samples(population@));
            assert(radii@ =~= radius_samples(population@));
            assert(targets@ =~= max_radius_samples(population@));
        }
        let a = max_sample(&radii);
        let b = max_sample(&targets);
        let axis = if a > b { a } else { b };
        let speed = build(&speeds);
        let radius = build_with_max(&radii, axis);
        let max_radius = build_with_max(&targets, axis);
        self.observe(axis);
        Diagnostics { speed, radius, max_radius, x_limit: self.x_limit, speed_axis: settings.max_speed }
    }
}

/// The axis limit never grows unless a sample exceeds the decayed limit, and
/// then it becomes exactly that sample.
pub proof fn lemma_limit_decay(prev: u64, observed: u64)
    ensures
        observed <= decayed(prev) ==> next_limit(prev, observed) <= prev,
        observed > decayed(prev) ==> next_limit(prev, observed) == observed,
        next_limit(prev, observed) >= observed,
{
}

} // verus!
