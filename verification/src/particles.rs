//! The explosion effect: a single burst of short-lived particles with
//! independent ballistic motion, spawned on an unsafe landing.

use vstd::prelude::*;
use crate::fxp::{TWO_PI_MRAD, clamped, clamp_i64, floor_div, sin_mrad_spec, cos_mrad_spec,
    sin_mrad, cos_mrad};
use crate::lander::{VEL_LIMIT_MILLI, POS_LIMIT_MILLI};
use crate::rng::rand_range_i64;

verus! {

/// Particles spawned by one burst.
pub const PARTICLE_COUNT: usize = 100;

/// Slowest burst speed, 50 units/s, in milli-units.
pub const PARTICLE_SPEED_MIN_MILLI: i64 = 50_000;

/// Fastest burst speed, 200 units/s (exclusive), in milli-units.
pub const PARTICLE_SPEED_MAX_MILLI: i64 = 200_000;

/// Shortest particle lifetime, 0.5 s, in ticks.
pub const PARTICLE_LIFE_MIN_TICKS: i64 = 30;

/// Longest particle lifetime, 1.5 s (exclusive), in ticks.
pub const PARTICLE_LIFE_MAX_TICKS: i64 = 90;

/// One spark of an explosion: position and velocity in milli-units,
/// lifetime counted down in ticks.
#[derive(Clone, Copy, PartialEq, Eq, Structural, Debug)]
pub struct Particle {
    pub pos_x: i64,
    pub pos_y: i64,
    pub vel_x: i64,
    pub vel_y: i64,
    pub lifetime: i64,
    pub initial_lifetime: i64,
}

impl Particle {
    /// Ranges every field stays within.
    pub open spec fn wf(self) -> bool {
        &&& -POS_LIMIT_MILLI <= self.pos_x <= POS_LIMIT_MILLI
        &&& -POS_LIMIT_MILLI <= self.pos_y <= POS_LIMIT_MILLI
        &&& -VEL_LIMIT_MILLI <= self.vel_x <= VEL_LIMIT_MILLI
        &&& -VEL_LIMIT_MILLI <= self.vel_y <= VEL_LIMIT_MILLI
        &&& 1 <= self.initial_lifetime < PARTICLE_LIFE_MAX_TICKS
        &&& 0 <= self.lifetime <= self.initial_lifetime
    }

    /// Whether the particle is still drawn and advanced.
    pub open spec fn alive(self) -> bool {
        self.lifetime > 0
    }

    /// A fresh spark at `(x, y)` flying in direction `angle` with the
    /// given speed, alive for `lifetime` ticks.
    pub fn new(x: i64, y: i64, angle: i64, speed: i64, lifetime: i64) -> (p: Particle)
        requires
            -POS_LIMIT_MILLI <= x <= POS_LIMIT_MILLI,
            -POS_LIMIT_MILLI <= y <= POS_LIMIT_MILLI,
            0 <= angle < TWO_PI_MRAD,
            0 <= speed <= PARTICLE_SPEED_MAX_MILLI,
            1 <= lifetime < PARTICLE_LIFE_MAX_TICKS,
        ensures
            p.pos_x == x,
            p.pos_y == y,
            p.vel_x == speed * cos_mrad_spec(angle as int) / 1000,
            p.vel_y == speed * sin_mrad_spec(angle as int) / 1000,
            p.lifetime == lifetime,
            p.initial_lifetime == lifetime,
            p.wf(),
            p.alive(),
    {
        let c = cos_mrad(angle);
        let s = sin_mrad(angle);
        proof {
            assert(-200_000_000 <= speed * c <= 200_000_000 && -200_000_000 <= speed * s
                <= 200_000_000) by (nonlinear_arith)
                requires
                    0 <= speed <= 200_000,
                    -1000 <= c <= 1000,
                    -1000 <= s <= 1000,
            ;
        }
        Particle {
            pos_x: x,
            pos_y: y,
            vel_x: floor_div(speed * c, 1000),
            vel_y: floor_div(speed * s, 1000),
            lifetime,
            initial_lifetime: lifetime,
        }
    }

    /// The spark one tick later: position integrates the current
    /// velocity, the lifetime loses one tick, and a constant velocity
    /// delta is applied along y afterwards.
    pub open spec fn spec_step(self) -> Particle {
        Particle {
            pos_x: clamped(
                self.pos_x + self.vel_x / 60,
                -POS_LIMIT_MILLI as int,
                POS_LIMIT_MILLI as int,
            ) as i64,
            pos_y: clamped(
                self.pos_y + self.vel_y / 60,
                -POS_LIMIT_MILLI as int,
                POS_LIMIT_MILLI as int,
            ) as i64,
            vel_x: self.vel_x,
            vel_y: clamped(
                self.vel_y - 1000,
                -VEL_LIMIT_MILLI as int,
                VEL_LIMIT_MILLI as int,
            ) as i64,
            lifetime: (self.lifetime - 1) as i64,
            initial_lifetime: self.initial_lifetime,
        }
    }

    /// Advance the spark by one tick.
    pub fn update(&mut self)
        requires
            old(self).wf(),
        ensures
            *final(self) == old(self).spec_step(),
            final(self).wf() || final(self).lifetime < 0,
            final(self).lifetime == old(self).lifetime - 1,
    {
        let sx = floor_div(self.vel_x, 60);
        let sy = floor_div(self.vel_y, 60);
        self.pos_x = clamp_i64(self.pos_x + sx, -POS_LIMIT_MILLI, POS_LIMIT_MILLI);
        self.pos_y = clamp_i64(self.pos_y + sy, -POS_LIMIT_MILLI, POS_LIMIT_MILLI);
        self.lifetime = self.lifetime - 1;
        self.vel_y = clamp_i64(self.vel_y - 1000, -VEL_LIMIT_MILLI, VEL_LIMIT_MILLI);
    }

    /// How much of the spark's life remains, scaled by 1000; drives its
    /// fade and size on screen.
    pub fn fade_ratio_milli(&self) -> (r: i64)
        requires
            self.wf(),
        ensures
            r == 1000 * self.lifetime / (self.initial_lifetime as int),
            0 <= r <= 1000,
    {
        proof {
            vstd::arithmetic::div_mod::lemma_div_pos_is_pos(
                1000 * self.lifetime as int,
                self.initial_lifetime as int,
            );
            assert(1000 * self.lifetime <= self.initial_lifetime as int * 1000)
                by (nonlinear_arith)
                requires
                    self.lifetime <= self.initial_lifetime,
            ;
            vstd::arithmetic::div_mod::lemma_multiply_divide_le(
                1000 * self.lifetime as int,
                self.initial_lifetime as int,
                1000,
            );
        }
        floor_div(1000 * self.lifetime, self.initial_lifetime)
    }

    /// Whether the spark is still in its bright core phase: more than
    /// 3/5 of its life remains.
    pub fn is_bright_core(&self) -> (r: bool)
        requires
            self.wf(),
        ensures
            r == (5 * self.lifetime > 3 * self.initial_lifetime),
    {
        5 * self.lifetime > 3 * self.initial_lifetime
    }
}

/// The x-velocity a spark launches with in direction `angle` at `speed`.
pub open spec fn launch_velocity_x(angle: int, speed: int) -> int {
    speed * cos_mrad_spec(angle) / 1000
}

/// The y-velocity a spark launches with in direction `angle` at `speed`.
pub open spec fn launch_velocity_y(angle: int, speed: int) -> int {
    speed * sin_mrad_spec(angle) / 1000
}

/// Whether the spark's velocity is a burst launch: some direction in
/// `[0, 2 pi)` at some speed in `[50, 200)` units/s.
pub open spec fn burst_velocity(p: Particle) -> bool {
    exists|angle: int, speed: int|
        0 <= angle < TWO_PI_MRAD && PARTICLE_SPEED_MIN_MILLI <= speed < PARTICLE_SPEED_MAX_MILLI
            && p.vel_x == #[trigger] launch_velocity_x(angle, speed) && p.vel_y
            == launch_velocity_y(angle, speed)
}

/// The live sparks one tick later: every spark steps, and those whose
/// lifetime has run out are dropped, in order.
pub open spec fn stepped_live(s: Seq<Particle>) -> Seq<Particle>
    decreases s.len(),
{
    if s.len() == 0 {
        Seq::empty()
    } else {
        let rest = stepped_live(s.drop_last());
        let p = s.last().spec_step();
        if p.lifetime > 0 {
            rest.push(p)
        } else {
            rest
        }
    }
}

/// An explosion: the set of sparks still alive from one burst.
#[derive(Debug)]
pub struct Explosion {
    pub particles: Vec<Particle>,
}

impl Explosion {
    /// Every spark is within range and alive.
    pub open spec fn wf(self) -> bool {
        forall|i: int|
            0 <= i < self.particles@.len() ==> (#[trigger] self.particles@[i]).wf()
                && self.particles@[i].alive()
    }

    /// A burst of exactly `PARTICLE_COUNT` sparks at `(x, y)`, each with
    /// a uniformly random direction, speed in [50, 200) units/s and
    /// lifetime in [0.5, 1.5) s.
    pub fn new(x: i64, y: i64) -> (e: Explosion)
        requires
            -POS_LIMIT_MILLI <= x <= POS_LIMIT_MILLI,
            -POS_LIMIT_MILLI <= y <= POS_LIMIT_MILLI,
        ensures
            e.wf(),
            e.particles@.len() == PARTICLE_COUNT,
            forall|i: int|
                0 <= i < e.particles@.len() ==> (#[trigger] e.particles@[i]).pos_x == x
                    && e.particles@[i].pos_y == y && e.particles@[i].alive()
                    && PARTICLE_LIFE_MIN_TICKS <= e.particles@[i].lifetime
                    < PARTICLE_LIFE_MAX_TICKS && burst_velocity(e.particles@[i]),
    {
        let mut particles: Vec<Particle> = Vec::new();
        let mut i: usize = 0;
        while i < PARTICLE_COUNT
            invariant
                -POS_LIMIT_MILLI <= x <= POS_LIMIT_MILLI,
                -POS_LIMIT_MILLI <= y <= POS_LIMIT_MILLI,
                i <= PARTICLE_COUNT,
                particles@.len() == i,
                forall|j: int|
                    0 <= j < i ==> (#[trigger] particles@[j]).wf() && particles@[j].pos_x == x
                        && particles@[j].pos_y == y && particles@[j].alive()
                        && PARTICLE_LIFE_MIN_TICKS <= particles@[j].lifetime
                        < PARTICLE_LIFE_MAX_TICKS && burst_velocity(particles@[j]),
            decreases PARTICLE_COUNT - i,
        {
            let angle = rand_range_i64(0, TWO_PI_MRAD - 1);
            let speed = rand_range_i64(PARTICLE_SPEED_MIN_MILLI, PARTICLE_SPEED_MAX_MILLI - 1);
            let lifetime = rand_range_i64(PARTICLE_LIFE_MIN_TICKS, PARTICLE_LIFE_MAX_TICKS - 1);
            let spark = Particle::new(x, y, angle, speed, lifetime);
            proof {
                assert(spark.vel_x == launch_velocity_x(angle as int, speed as int));
                assert(spark.vel_y == launch_velocity_y(angle as int, speed as int));
                assert(burst_velocity(spark));
            }
            particles.push(spark);
            i += 1;
        }
        Explosion { particles }
    }

    /// Advance every spark by one tick and drop those whose life has run
    /// out.
    pub fn update(&mut self)
        requires
            old(self).wf(),
        ensures
            final(self).particles@ == stepped_live(old(self).particles@),
            final(self).wf(),
    {
        let n = self.particles.len();
        let mut out: Vec<Particle> = Vec::new();
        let mut i: usize = 0;
        while i < n
            invariant
                old(self).wf(),
                *self == *old(self),
                n == self.particles@.len(),
                i <= n,
                out@ == stepped_live(self.particles@.take(i as int)),
                forall|j: int| 0 <= j < out@.len() ==> (#[trigger] out@[j]).wf() && out@[j].alive(),
            decreases n - i,
        {
            let mut p = self.particles[i];
            p.update();
            proof {
                assert(self.particles@.take(i + 1).drop_last() =~= self.particles@.take(i as int));
                assert(self.particles@.take(i + 1).last() == self.particles@[i as int]);
            }
            if p.lifetime > 0 {
                out.push(p);
            }
            i += 1;
        }
        proof {
            assert(self.particles@.take(n as int) =~= self.particles@);
        }
        self.particles = out;
    }

    /// Whether every spark of the burst has died out.
    pub fn is_finished(&self) -> (r: bool)
        ensures
            r == (self.particles@.len() == 0),
    {
        self.particles.len() == 0
    }
}

/// The live sparks after `n` further ticks.
pub open spec fn stepped_live_times(s: Seq<Particle>, n: int) -> Seq<Particle>
    decreases n,
{
    if n <= 0 {
        s
    } else {
        stepped_live_times(stepped_live(s), n - 1)
    }
}

proof fn lemma_stepped_live_bound(s: Seq<Particle>, b: int)
    requires
        forall|i: int| 0 <= i < s.len() ==> (#[trigger] s[i]).lifetime <= b && s[i].alive(),
    ensures
        forall|i: int|
            0 <= i < stepped_live(s).len() ==> (#[trigger] stepped_live(s)[i]).lifetime <= b - 1
                && stepped_live(s)[i].lifetime > 0,
    decreases s.len(),
{
    if s.len() > 0 {
        lemma_stepped_live_bound(s.drop_last(), b);
        let rest = stepped_live(s.drop_last());
        let p = s.last().spec_step();
        assert(s[s.len() - 1].lifetime <= b);
        assert forall|i: int|
            0 <= i < stepped_live(s).len() implies (#[trigger] stepped_live(s)[i]).lifetime <= b
            - 1 && stepped_live(s)[i].lifetime > 0 by {
            if p.lifetime > 0 {
                assert(stepped_live(s) == rest.push(p));
                if i < rest.len() {
                    assert(stepped_live(s)[i] == rest[i]);
                } else {
                    assert(stepped_live(s)[i] == p);
                }
            } else {
                assert(stepped_live(s) == rest);
            }
        }
    }
}

/// A burst drains on schedule: once no spark has more than `n` ticks of
/// life left, `n` more ticks leave the explosion finished (empty).
pub proof fn lemma_explosion_drains(s: Seq<Particle>, n: int)
    requires
        n >= 0,
        forall|i: int| 0 <= i < s.len() ==> (#[trigger] s[i]).lifetime <= n && s[i].alive(),
    ensures
        stepped_live_times(s, n).len() == 0,
    decreases n,
{
    if n == 0 {
        if s.len() > 0 {
            assert(s[0].lifetime <= n);
            assert(s[0].alive());
            assert(false);
        }
        assert(s.len() == 0);
    } else {
        lemma_stepped_live_bound(s, n);
        lemma_explosion_drains(stepped_live(s), n - 1);
    }
}

} // verus!
