//! Bursts of short-lived particles, thrown out where the snake eats.

use vstd::prelude::*;
use crate::vector::{lemma_normalize_is_unit, normalize_spec, Point3, Vec3};

verus! {

/// Number of particles in a burst unless configured otherwise.
pub const DEFAULT_PARTICLE_COUNT: usize = 10;

/// Time a particle lives unless configured otherwise: 1.
pub const DEFAULT_PARTICLE_LIFETIME: u64 = 1_000_000;

/// A colour with red, green, blue and opacity.
#[derive(Clone, Copy, Debug, PartialEq, Eq, Hash, Structural)]
pub struct Color {
    pub r: u8,
    pub g: u8,
    pub b: u8,
    pub a: u8,
}

/// One particle: where and when it started, its velocity and its colour.
#[derive(Clone, Copy, Debug, PartialEq, Eq, Structural)]
pub struct Particle {
    pub start_pos: Vec3,
    pub velocity: Vec3,
    pub spawn_time: u64,
    pub color: Color,
}

/// The particles that are alive, oldest burst first.
pub struct ParticleSystem {
    particles: Vec<Particle>,
}

impl View for ParticleSystem {
    type V = Seq<Particle>;

    closed spec fn view(&self) -> Seq<Particle> {
        self.particles@
    }
}

/// Colour of a burst: gold for a prize, red for ordinary food.
pub open spec fn burst_color_spec(is_prize: bool) -> Color {
    if is_prize {
        Color { r: 255, g: 215, b: 0, a: 255 }
    } else {
        Color { r: 200, g: 50, b: 50, a: 255 }
    }
}

/// Direction that three random bytes stand for, before it is brought to length
/// one: each byte `b` gives the component `b / 255 - 1/2`, here multiplied by 510.
pub open spec fn raw_direction(b0: u8, b1: u8, b2: u8) -> Point3 {
    Point3 { x: 2 * b0 - 255, y: 2 * b1 - 255, z: 2 * b2 - 255 }
}

/// Velocity of a particle made from three random bytes: the direction they stand
/// for, at speed one.
pub open spec fn burst_velocity(b0: u8, b1: u8, b2: u8) -> Point3 {
    normalize_spec(raw_direction(b0, b1, b2))
}

/// Velocity of a particle for the outcome of asking for random bytes. Without
/// bytes the direction is the one that three zero bytes give.
pub open spec fn sample_velocity(sample: Option<[u8; 3]>) -> Point3 {
    match sample {
        Some(bytes) => burst_velocity(bytes[0], bytes[1], bytes[2]),
        None => burst_velocity(0, 0, 0),
    }
}

/// `p` is a particle of a burst at `center`, made at the time `now` in the colour
/// `color`: it starts there and then, and flies off at speed one in one of the
/// directions that three bytes can give.
pub open spec fn is_burst_particle(p: Particle, center: Point3, now: int, color: Color) -> bool {
    &&& p.start_pos@ == center
    &&& p.spawn_time == now
    &&& p.color == color
    &&& p.velocity@.is_unit()
    &&& exists|b0: u8, b1: u8, b2: u8| p.velocity@ == #[trigger] burst_velocity(b0, b1, b2)
}

/// A particle is alive while its age is below the lifetime.
pub open spec fn is_live(p: Particle, now: int, lifetime: int) -> bool {
    now - p.spawn_time < lifetime
}

/// The test that `live_particles` keeps particles by.
pub open spec fn live_pred(now: int, lifetime: int) -> spec_fn(Particle) -> bool {
    |p: Particle| is_live(p, now, lifetime)
}

/// The particles of `ps` that are alive at the time `now`, in their order.
pub open spec fn live_particles(ps: Seq<Particle>, now: int, lifetime: int) -> Seq<Particle> {
    ps.filter(live_pred(now, lifetime))
}

/// The direction of three bytes never vanishes, and its velocity has length one
/// up to rounding.
pub proof fn lemma_burst_velocity_is_unit(b0: u8, b1: u8, b2: u8)
    ensures
        raw_direction(b0, b1, b2).norm_sq() > 0,
        burst_velocity(b0, b1, b2).is_unit(),
{
    let d = raw_direction(b0, b1, b2);
    assert(d.x * d.x + d.y * d.y + d.z * d.z > 0) by (nonlinear_arith)
        requires
            d.x != 0,
    ;
    lemma_normalize_is_unit(d);
}

/// A particle is among the live ones exactly while its age is below the lifetime.
/// With a lifetime of 1, a particle made at the time `t` is there at `t + 0.99` and
/// gone at `t + 1.01`.
pub proof fn lemma_particle_lifetime(ps: Seq<Particle>, i: int, now: int, lifetime: int)
    requires
        0 <= i < ps.len(),
    ensures
        live_particles(ps, now, lifetime).contains(ps[i]) <==> now - ps[i].spawn_time < lifetime,
{
    let pred = live_pred(now, lifetime);
    let live = ps.filter(pred);
    if pred(ps[i]) {
        ps.lemma_filter_contains(pred, i);
    }
    if live.contains(ps[i]) {
        let j = choose|j: int| 0 <= j < live.len() && live[j] == ps[i];
        ps.lemma_filter_pred(pred, j);
    }
}

/// Every live particle is one of the given particles, and its age is below the lifetime.
pub proof fn lemma_live_particles_sound(ps: Seq<Particle>, now: int, lifetime: int)
    ensures
        forall|i: int|
            0 <= i < live_particles(ps, now, lifetime).len() ==> is_live(
                #[trigger] live_particles(ps, now, lifetime)[i],
                now,
                lifetime,
            ) && ps.contains(live_particles(ps, now, lifetime)[i]),
{
    let pred = live_pred(now, lifetime);
    let live = ps.filter(pred);
    assert forall|i: int| 0 <= i < live.len() implies is_live(#[trigger] live[i], now, lifetime)
        && ps.contains(live[i]) by {
        ps.lemma_filter_pred(pred, i);
        assert(live.contains(live[i]));
        ps.lemma_filter_contains_rev(pred, live[i]);
    }
}

/// Once every particle has reached the lifetime, none is left.
pub proof fn lemma_all_expired(ps: Seq<Particle>, now: int, lifetime: int)
    requires
        forall|i: int| 0 <= i < ps.len() ==> now - (#[trigger] ps[i]).spawn_time >= lifetime,
    ensures
        live_particles(ps, now, lifetime).len() == 0,
    decreases ps.len(),
{
    reveal(Seq::filter);
    if ps.len() > 0 {
        lemma_all_expired(ps.drop_last(), now, lifetime);
        assert(!is_live(ps.last(), now, lifetime));
    }
}

/// Removing the dead step by step leaves what removing them at the last time leaves.
pub proof fn lemma_expiry_accumulates(ps: Seq<Particle>, earlier: int, later: int, lifetime: int)
    requires
        earlier <= later,
    ensures
        live_particles(live_particles(ps, earlier, lifetime), later, lifetime) == live_particles(
            ps,
            later,
            lifetime,
        ),
    decreases ps.len(),
{
    reveal(Seq::filter);
    let first = live_pred(earlier, lifetime);
    let second = live_pred(later, lifetime);
    if ps.len() > 0 {
        let rest = ps.drop_last();
        lemma_expiry_accumulates(rest, earlier, later, lifetime);
        if first(ps.last()) {
            let kept = rest.filter(first);
            assert(kept.push(ps.last()).drop_last() == kept);
        }
    }
}

/// Colour of a burst.
pub fn burst_color(is_prize: bool) -> (c: Color)
    ensures
        c == burst_color_spec(is_prize),
{
    if is_prize {
        Color { r: 255, g: 215, b: 0, a: 255 }
    } else {
        Color { r: 200, g: 50, b: 50, a: 255 }
    }
}

/// The particle that starts at `center` at the time `now` with the velocity that
/// the outcome of asking for random bytes gives.
pub fn particle_from_sample(center: Vec3, now: u64, color: Color, sample: Option<[u8; 3]>) -> (p:
    Particle)
    ensures
        p.start_pos == center,
        p.spawn_time == now,
        p.color == color,
        p.velocity@ == sample_velocity(sample),
        p.velocity@.is_unit(),
        is_burst_particle(p, center@, now as int, color),
{
    let bytes: [u8; 3] = match sample {
        Some(bytes) => bytes,
        None => [0u8, 0u8, 0u8],
    };
    proof {
        lemma_burst_velocity_is_unit(bytes[0], bytes[1], bytes[2]);
    }
    let direction = Vec3 {
        x: 2 * (bytes[0] as i64) - 255,
        y: 2 * (bytes[1] as i64) - 255,
        z: 2 * (bytes[2] as i64) - 255,
    };
    let velocity = direction.normalize();
    assert(velocity@ == burst_velocity(bytes[0], bytes[1], bytes[2]));
    Particle { start_pos: center, velocity, spawn_time: now, color }
}

#[verifier::external_type_specification]
#[verifier::external_body]
pub struct ExRandomError(getrandom::Error);

/// Asks `getrandom::getrandom` to fill three bytes. The call may fail, and nothing is
/// claimed about the bytes it gives.
#[verifier::external_body]
fn random_bytes() -> (r: Result<[u8; 3], getrandom::Error>) {
    let mut buf = [0u8; 3];
    match getrandom::getrandom(&mut buf) {
        Ok(()) => Ok(buf),
        Err(e) => Err(e),
    }
}

/// Three random bytes, or `None` where the system gave none.
fn random_sample() -> (r: Option<[u8; 3]>) {
    match random_bytes() {
        Ok(bytes) => Some(bytes),
        Err(_) => None,
    }
}

impl ParticleSystem {
    /// A system without particles.
    pub fn new() -> (r: ParticleSystem)
        ensures
            r@ == Seq::<Particle>::empty(),
    {
        ParticleSystem { particles: Vec::new() }
    }

    /// The live particles.
    pub fn particles(&self) -> (r: &Vec<Particle>)
        ensures
            r@ == self@,
    {
        &self.particles
    }

    /// Number of live particles.
    pub fn len(&self) -> (r: usize)
        ensures
            r == self@.len(),
    {
        self.particles.len()
    }

    /// Adds a burst of `count` particles at `center`, made at the time `now`. Each
    /// flies off in a random direction at speed one; where the system gives no random
    /// bytes, in the direction that zero bytes give.
    pub fn spawn_burst(&mut self, center: Vec3, now: u64, is_prize: bool, count: usize)
        ensures
            final(self)@.len() == old(self)@.len() + count,
            final(self)@.subrange(0, old(self)@.len() as int) == old(self)@,
            forall|i: int|
                old(self)@.len() <= i < final(self)@.len() ==> is_burst_particle(
                    #[trigger] final(self)@[i],
                    center@,
                    now as int,
                    burst_color_spec(is_prize),
                ),
    {
        let color = burst_color(is_prize);
        let mut i: usize = 0;
        while i < count
            invariant
                i <= count,
                color == burst_color_spec(is_prize),
                self@.len() == old(self)@.len() + i,
                self@.subrange(0, old(self)@.len() as int) == old(self)@,
                forall|k: int|
                    old(self)@.len() <= k < self@.len() ==> is_burst_particle(
                        #[trigger] self@[k],
                        center@,
                        now as int,
                        color,
                    ),
            decreases count - i,
        {
            let sample = random_sample();
            let p = particle_from_sample(center, now, color, sample);
            self.particles.push(p);
            i += 1;
        }
    }

    /// Removes the particles whose age at the time `now` has reached `lifetime`.
    pub fn advance(&mut self, now: u64, lifetime: u64)
        ensures
            final(self)@ == live_particles(old(self)@, now as int, lifetime as int),
    {
        let mut kept: Vec<Particle> = Vec::new();
        let n = self.particles.len();
        let mut i: usize = 0;
        proof {
            reveal(Seq::filter);
        }
        while i < n
            invariant
                i <= n,
                n == self.particles@.len(),
                self@ == old(self)@,
                kept@ == live_particles(self.particles@.take(i as int), now as int, lifetime as int),
            decreases n - i,
        {
            let p = self.particles[i];
            proof {
                reveal(Seq::filter);
                let next = self.particles@.take(i + 1);
                assert(next.drop_last() == self.particles@.take(i as int));
                assert(next.last() == p);
            }
            if now < p.spawn_time || now - p.spawn_time < lifetime {
                kept.push(p);
            }
            i += 1;
        }
        assert(self.particles@.take(n as int) == self.particles@);
        self.particles = kept;
    }
}

} // verus!
