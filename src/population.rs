use vstd::prelude::*;

use crate::color::Rgba;
use crate::particle::Particle;
use crate::random::draw;
use crate::settings::Settings;
use crate::units::{Point, INITIAL_RADIUS, MAX_RADIUS_LIMIT, MICROS_PER_SECOND};

verus! {

/// New particles start within `[-FIELD_HALF, FIELD_HALF)` on both axes, in pixels.
pub const FIELD_HALF: i64 = 500;

/// Shortest life of a new particle, in microseconds.
pub const MIN_LIFE: u64 = 1_000_000;

/// Bound above the life of a new particle, in microseconds.
pub const MAX_LIFE: u64 = 10_000_000;

/// Slowest growth of a new particle, in thousandths of a pixel per second.
pub const MIN_GROWTH_RATE: u64 = 1_000;

/// What a tick did.
#[derive(Clone, Copy, Debug, PartialEq, Eq, Structural)]
pub enum TickOutcome {
    /// The settings were paused: nothing changed.
    Paused,
    /// The population advanced and `spawned` particles were added.
    Advanced { spawned: u64 },
    /// The population advanced, but no particle could be added because the
    /// target-radius distribution is undefined.
    SpawnSkipped,
}

/// The target radius for a drawn sample, kept within the limit.
pub open spec fn clamped_max_radius(sample: u64) -> u64 {
    if sample < MAX_RADIUS_LIMIT { sample } else { MAX_RADIUS_LIMIT }
}

pub open spec fn in_field(v: int) -> bool {
    -FIELD_HALF <= v < FIELD_HALF
}

/// What holds of every particle spawned under `settings` with target radius
/// drawn as `sample`, whatever the random draws gave.
pub open spec fn spawned_from(p: Particle, settings: Settings, sample: u64) -> bool {
    &&& p.color.red < 128
    &&& p.color.alpha >= 128 && p.color.alpha < 255
    &&& p.color.green < 255 && p.color.blue < 255
    &&& in_field(p.pivot.x as int) && in_field(p.pivot.y as int)
    &&& in_field(p.pivot.x + p.offset.x) && in_field(p.pivot.y + p.offset.y)
    &&& p.angle == 0
    &&& p.max_radius == clamped_max_radius(sample)
    &&& p.radius == if INITIAL_RADIUS < p.max_radius { INITIAL_RADIUS } else { p.max_radius }
    &&& if settings.max_speed > 0 {
        -(settings.max_speed as int) <= p.angular_speed < settings.max_speed
    } else {
        p.angular_speed == 0
    }
    &&& if settings.max_growth_rate > MIN_GROWTH_RATE {
        MIN_GROWTH_RATE <= p.growth_rate < settings.max_growth_rate
    } else {
        p.growth_rate == MIN_GROWTH_RATE
    }
    &&& MIN_LIFE <= p.time_to_live < MAX_LIFE
}

/// The particles of `s` that are still alive after each advances by `dt`,
/// in their order.
pub open spec fn survivors(s: Seq<Particle>, dt: u64) -> Seq<Particle>
    decreases s.len(),
{
    if s.len() == 0 {
        Seq::empty()
    } else {
        let rest = survivors(s.drop_last(), dt);
        let q = s.last().advanced(dt);
        if q.spec_is_alive() { rest.push(q) } else { rest }
    }
}

/// How many particles a tick adds to `n` survivors.
pub open spec fn spawn_count(n: nat, settings: Settings, samples: nat) -> nat {
    if !settings.spec_gamma_is_valid() || n >= settings.max_count {
        0
    } else {
        let want = (settings.max_count - n) as nat;
        if want < samples { want } else { samples }
    }
}

/// A new particle: random color, pivot and start in the field, random speed,
/// growth rate and life within the settings' limits, and the target radius
/// `sample` kept within the limit. It starts at `INITIAL_RADIUS`, or at its
/// target when that is smaller, so that it never exceeds its target.
pub fn spawn(settings: &Settings, sample: u64) -> (p: Particle)
    ensures
        spawned_from(p, *settings, sample),
{
    let color = Rgba {
        red: draw(0, 128) as u8,
        green: draw(0, 255) as u8,
        blue: draw(0, 255) as u8,
        alpha: draw(128, 255) as u8,
    };
    let origin = Point { x: draw(-FIELD_HALF, FIELD_HALF), y: draw(-FIELD_HALF, FIELD_HALF) };
    let pivot = Point { x: draw(-FIELD_HALF, FIELD_HALF), y: draw(-FIELD_HALF, FIELD_HALF) };
    let max_radius: u64 = if sample < MAX_RADIUS_LIMIT { sample } else { MAX_RADIUS_LIMIT };
    let radius: u64 = if INITIAL_RADIUS < max_radius { INITIAL_RADIUS } else { max_radius };
    let speed = settings.max_speed as i64;
    let growth = draw(MIN_GROWTH_RATE as i64, settings.max_growth_rate as i64);
    let life = draw(MIN_LIFE as i64, MAX_LIFE as i64);
    Particle {
        color,
        pivot,
        offset: Point { x: origin.x - pivot.x, y: origin.y - pivot.y },
        angle: 0,
        radius,
        max_radius,
        angular_speed: draw(-speed, speed),
        growth_rate: growth as u64,
        time_to_live: life as u64,
    }
}

/// The live particles.
pub struct PopulationManager {
    particles: Vec<Particle>,
}

impl View for PopulationManager {
    type V = Seq<Particle>;

    closed spec fn view(&self) -> Seq<Particle> {
        self.particles@
    }
}

/// Every particle of `s` stays within its target radius.
pub open spec fn all_wf(s: Seq<Particle>) -> bool {
    forall|i: int| 0 <= i < s.len() ==> (#[trigger] s[i]).wf()
}

proof fn lemma_survivors_alive(s: Seq<Particle>, dt: u64)
    ensures
        forall|i: int| 0 <= i < survivors(s, dt).len() ==> (#[trigger] survivors(s, dt)[i]).spec_is_alive(),
    decreases s.len(),
{
    if s.len() > 0 {
        lemma_survivors_alive(s.drop_last(), dt);
        let rest = survivors(s.drop_last(), dt);
        let q = s.last().advanced(dt);
        if q.spec_is_alive() {
            assert forall|i: int| 0 <= i < rest.push(q).len() implies (#[trigger] rest.push(q)[i]).spec_is_alive() by {
                if i < rest.len() {
                    assert(rest.push(q)[i] == rest[i]);
                }
            }
        }
    }
}

impl PopulationManager {
    /// Every particle stays within its target radius.
    pub open spec fn wf(&self) -> bool {
        all_wf(self@)
    }

    /// An empty population.
    pub fn new() -> (r: PopulationManager)
        ensures
            r@ == Seq::<Particle>::empty(),
            r.wf(),
    {
        PopulationManager { particles: Vec::new() }
    }

    /// The live particles, oldest first.
    pub fn particles(&self) -> (r: &Vec<Particle>)
        ensures
            r@ == self@,
    {
        &self.particles
    }

    /// Removes every particle.
    pub fn clear(&mut self)
        ensures
            final(self)@ == Seq::<Particle>::empty(),
            final(self).wf(),
    {
        self.particles.clear();
    }

    /// Advances every particle by `dt` microseconds and drops those that are
    /// no longer alive, keeping the others in order.
    pub fn advance(&mut self, dt: u64)
        ensures
            final(self)@ == survivors(old(self)@, dt),
            final(self).wf(),
    {
        proof {
            lemma_survivors_alive(old(self)@, dt);
        }
        let mut kept: Vec<Particle> = Vec::new();
        let mut j: usize = 0;
        while j < self.particles.len()
            invariant
                j <= self.particles@.len(),
                kept@ == survivors(self.particles@.take(j as int), dt),
            decreases self.particles@.len() - j,
        {
            proof {
                assert(self.particles@.take(j as int + 1).drop_last() =~= self.particles@.take(j as int));
            }
            let mut p = self.particles[j];
            p.update(dt);
            if p.is_alive() {
                kept.push(p);
            }
            j = j + 1;
        }
        proof {
            assert(self.particles@.take(self.particles@.len() as int) =~= self.particles@);
        }
        self.particles = kept;
    }

    /// Adds particles until the population reaches `settings.max_count`, one
    /// for each of `samples` in turn, each taking that sample as its target
    /// radius; adds none when the target-radius distribution is undefined.
    pub fn replenish(&mut self, settings: &Settings, samples: &Vec<u64>) -> (added: u64)
        ensures
            added == spawn_count(old(self)@.len(), *settings, samples@.len()),
            final(self)@.len() == old(self)@.len() + added,
            final(self)@.take(old(self)@.len() as int) == old(self)@,
            forall|i: int| 0 <= i < added ==> spawned_from(#[trigger] final(self)@[old(self)@.len() + i], *settings, samples@[i]),
            old(self).wf() ==> final(self).wf(),
    {
        let ghost start = self.particles@;
        let n = self.particles.len();
        if !settings.gamma_is_valid() || n >= settings.max_count as usize {
            proof {
                assert(self.particles@.take(n as int) =~= start);
            }
            return 0;
        }
        let mut k: usize = 0;
        while self.particles.len() < settings.max_count as usize && k < samples.len()
            invariant
                n == start.len(),
                n < settings.max_count,
                settings.spec_gamma_is_valid(),
                k <= samples@.len(),
                self.particles@.len() == n + k,
                self.particles@.len() <= settings.max_count,
                self.particles@.take(n as int) =~= start,
                forall|i: int| 0 <= i < k ==> spawned_from(#[trigger] self.particles@[n + i], *settings, samples@[i]),
                all_wf(start) ==> all_wf(self.particles@),
            decreases samples@.len() - k,
        {
            let p = spawn(settings, samples[k]);
            let ghost old_ps = self.particles@;
            self.particles.push(p);
            k = k + 1;
            proof {
                assert(self.particles@[n + (k - 1)] == p);
                assert(self.particles@.drop_last() =~= old_ps);
                assert(self.particles@.last() == p);
            }
        }
        k as u64
    }

    /// One tick of the simulation: unless paused, advances and culls the
    /// population, then fills it towards `settings.max_count` with targets
    /// drawn as `samples`. A tick that should add particles but finds the
    /// target-radius distribution undefined adds none and says so.
    pub fn update(&mut self, dt: u64, settings: &Settings, samples: &Vec<u64>) -> (r: TickOutcome)
        ensures
            settings.paused ==> final(self)@ == old(self)@ && r == TickOutcome::Paused,
            !settings.paused ==> ({
                let kept = survivors(old(self)@, dt);
                let added = spawn_count(kept.len(), *settings, samples@.len());
                &&& final(self)@.len() == kept.len() + added
                &&& final(self)@.take(kept.len() as int) == kept
                &&& forall|i: int| 0 <= i < added ==> spawned_from(#[trigger] final(self)@[kept.len() + i], *settings, samples@[i])
                &&& r == if !settings.spec_gamma_is_valid() && kept.len() < settings.max_count {
                    TickOutcome::SpawnSkipped
                } else {
                    TickOutcome::Advanced { spawned: added as u64 }
                }
            }),
            !settings.paused ==> final(self).wf(),
            old(self).wf() ==> final(self).wf(),
    {
        if settings.paused {
            return TickOutcome::Paused;
        }
        self.advance(dt);
        let short = self.particles.len() < settings.max_count as usize;
        let added = self.replenish(settings, samples);
        if !settings.gamma_is_valid() && short {
            TickOutcome::SpawnSkipped
        } else {
            TickOutcome::Advanced { spawned: added }
        }
    }
}

proof fn lemma_survivors_len(s: Seq<Particle>, dt: u64)
    ensures
        survivors(s, dt).len() <= s.len(),
    decreases s.len(),
{
    if s.len() > 0 {
        lemma_survivors_len(s.drop_last(), dt);
    }
}

/// In a well-formed population a particle is dead exactly when its time is up
/// or it has reached its target radius.
pub proof fn lemma_population_dead_iff(s: Seq<Particle>)
    requires
        all_wf(s),
    ensures
        forall|i: int| 0 <= i < s.len() ==> (!(#[trigger] s[i]).spec_is_alive()
            <==> (s[i].time_to_live == 0 || s[i].radius == s[i].max_radius)),
{
}

/// A tick never takes the population past `max_count` unless it already held
/// more than that before culling: it spawns at most up to the target.
pub proof fn lemma_tick_bound(before: Seq<Particle>, dt: u64, settings: Settings, samples: nat)
    ensures
        ({
            let n = survivors(before, dt).len();
            n + spawn_count(n, settings, samples) <= if before.len() > settings.max_count {
                before.len()
            } else {
                settings.max_count as nat
            }
        }),
{
    lemma_survivors_len(before, dt);
}

/// Every spawned particle lives between one and ten seconds and has a target
/// radius within `[0, MAX_RADIUS_LIMIT]`.
pub proof fn lemma_spawned_bounds(p: Particle, settings: Settings, sample: u64)
    requires
        spawned_from(p, settings, sample),
    ensures
        MIN_LIFE <= p.time_to_live <= MAX_LIFE,
        0 <= p.max_radius <= MAX_RADIUS_LIMIT,
        p.wf(),
{
}

/// From an empty population with a target of three, a valid distribution and
/// three samples, one tick of any length yields three particles.
pub proof fn lemma_fill_from_empty(dt: u64, settings: Settings, samples: nat)
    requires
        settings.max_count == 3,
        settings.spec_gamma_is_valid(),
        samples >= 3,
    ensures
        survivors(Seq::<Particle>::empty(), dt).len() == 0,
        spawn_count(0, settings, samples) == 3,
{
}

/// A particle whose life is no longer than the tick ends the tick with no
/// time left, dead, and is culled.
pub proof fn lemma_expired_culled(p: Particle, dt: u64)
    requires
        p.time_to_live <= dt,
    ensures
        p.advanced(dt).time_to_live == 0,
        !p.advanced(dt).spec_is_alive(),
        survivors(seq![p], dt) == Seq::<Particle>::empty(),
{
    let one = seq![p];
    assert(one.drop_last() =~= Seq::<Particle>::empty());
    assert(one.last() == p);
    assert(survivors(one.drop_last(), dt) =~= Seq::<Particle>::empty());
    assert(survivors(one, dt) =~= Seq::<Particle>::empty());
}

/// With an undefined target-radius distribution a tick spawns nothing, so the
/// population does not grow.
pub proof fn lemma_invalid_gamma_no_spawn(before: Seq<Particle>, dt: u64, settings: Settings, samples: nat)
    requires
        !settings.spec_gamma_is_valid(),
    ensures
        spawn_count(survivors(before, dt).len(), settings, samples) == 0,
        survivors(before, dt).len() <= before.len(),
{
    lemma_survivors_len(before, dt);
}

} // verus!
