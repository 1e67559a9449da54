//! The lander simulator: kinematic state advanced tick by tick under
//! gravity and player-controlled thrust and rotation, plus the derived
//! geometry (body, flame and leg points) and the one-shot landing-safety
//! verdict.

use vstd::prelude::*;
use vstd::arithmetic::div_mod::{lemma_small_mod, lemma_add_mod_noop};
use crate::fxp::{
    MilliPoint, TWO_PI_MRAD, HALF_PI_MRAD, clamped, clamp_i64, floor_div, wrap_mrad,
    sin_mrad_spec, cos_mrad_spec, sin_mrad, cos_mrad,
};

verus! {

/// Lunar gravity, 1.62 units/s^2, as milli-units of velocity per tick.
pub const GRAVITY_MILLI_PER_TICK: i64 = 27;

/// Fastest touchdown speed that still counts as safe, in milli-units/s.
pub const MAX_SAFE_LANDING_VELOCITY_MILLI: i64 = 2000;

/// Widest angle off the surface that still counts as safe, milli-radians.
pub const MAX_SAFE_LANDING_ANGLE_MRAD: i64 = 150;

/// A full tank, 100 fuel units, in milli-units.
pub const FULL_TANK_MILLI: i64 = 100_000;

/// Full throttle as a milli-scaled level standing for 1.0.
pub const FULL_THRUST_MILLI: i64 = 1000;

/// Width of the playfield in milli-units; `pos_x` is clamped into it.
pub const SCREEN_WIDTH_MILLI: i64 = 800_000;

/// Saturation bound for velocity components, far beyond any reachable
/// speed, so that integration is total.
pub const VEL_LIMIT_MILLI: i64 = 1_000_000_000;

/// Saturation bound for the vertical position, far off any screen.
pub const POS_LIMIT_MILLI: i64 = 1_000_000_000_000;

/// The lander's state. Positions and velocities are in milli-units,
/// the angle in milli-radians wrapped to `[0, 2 pi)`, thrust a level in
/// `[0, 1000]` and fuel in `[0, 100_000]`.
#[derive(Clone, Copy, PartialEq, Eq, Structural, Debug)]
pub struct LunarLander {
    pub pos_x: i64,
    pub pos_y: i64,
    pub vel_x: i64,
    pub vel_y: i64,
    pub angle: i64,
    pub thrust: i64,
    pub fuel: i64,
    pub landing_safety_checked: bool,
    pub landed_safely: bool,
}

impl LunarLander {
    /// Ranges every field stays within; established by `new` and kept by
    /// every mutation.
    pub open spec fn wf(self) -> bool {
        &&& 0 <= self.pos_x <= SCREEN_WIDTH_MILLI
        &&& -POS_LIMIT_MILLI <= self.pos_y <= POS_LIMIT_MILLI
        &&& -VEL_LIMIT_MILLI <= self.vel_x <= VEL_LIMIT_MILLI
        &&& -VEL_LIMIT_MILLI <= self.vel_y <= VEL_LIMIT_MILLI
        &&& 0 <= self.angle < TWO_PI_MRAD
        &&& 0 <= self.thrust <= FULL_THRUST_MILLI
        &&& 0 <= self.fuel <= FULL_TANK_MILLI
    }

    /// A fresh lander: at rest at `(x, y)`, upright, full tank, no
    /// throttle, verdict not yet taken.
    pub fn new(x: i64, y: i64) -> (s: LunarLander)
        requires
            0 <= x <= SCREEN_WIDTH_MILLI,
            -POS_LIMIT_MILLI <= y <= POS_LIMIT_MILLI,
        ensures
            s.pos_x == x,
            s.pos_y == y,
            s.vel_x == 0,
            s.vel_y == 0,
            s.angle == 0,
            s.thrust == 0,
            s.fuel == FULL_TANK_MILLI,
            !s.landing_safety_checked,
            !s.landed_safely,
            s.wf(),
    {
        LunarLander {
            pos_x: x,
            pos_y: y,
            vel_x: 0,
            vel_y: 0,
            angle: 0,
            thrust: 0,
            fuel: FULL_TANK_MILLI,
            landing_safety_checked: false,
            landed_safely: false,
        }
    }

    /// Velocity gained along x this tick from the throttle: the thrust
    /// vector points against the nose, scaled by the level and the
    /// engine power of 3.5 units/s^2 (3500 in milli-units), and
    /// integrated over a 1/60 s step; the divisor folds the two
    /// milli-scales and the 60 ticks per second together.
    pub open spec fn thrust_dvx(self) -> int {
        -(self.thrust * cos_mrad_spec(self.angle as int) * 3500) / 60_000_000
    }

    /// Velocity gained along y this tick from the throttle.
    pub open spec fn thrust_dvy(self) -> int {
        (self.thrust * sin_mrad_spec(self.angle as int) * 3500) / 60_000_000
    }

    /// Whether the throttle acts this tick: some fuel and some thrust.
    pub open spec fn thrusting(self) -> bool {
        self.fuel > 0 && self.thrust > 0
    }

    /// The state one tick later: thrust (if any) and gravity integrate
    /// into the velocity, fuel drains half a milli-unit per thrust level
    /// and clamps at zero, the position integrates the new velocity with
    /// the screen's y axis pointing down, and `pos_x` is clamped onto the
    /// screen.
    pub open spec fn spec_step(self) -> LunarLander {
        let dvx = if self.thrusting() {
            self.thrust_dvx()
        } else {
            0
        };
        let dvy = if self.thrusting() {
            self.thrust_dvy()
        } else {
            0
        };
        let fuel1 = if self.thrusting() {
            clamped(self.fuel - self.thrust / 2, 0, FULL_TANK_MILLI as int)
        } else {
            self.fuel as int
        };
        let vx1 = clamped(
            self.vel_x + dvx,
            -VEL_LIMIT_MILLI as int,
            VEL_LIMIT_MILLI as int,
        );
        let vy1 = clamped(
            self.vel_y + dvy,
            -VEL_LIMIT_MILLI as int,
            VEL_LIMIT_MILLI as int,
        );
        let vy2 = clamped(
            vy1 - GRAVITY_MILLI_PER_TICK,
            -VEL_LIMIT_MILLI as int,
            VEL_LIMIT_MILLI as int,
        );
        let px1 = clamped(self.pos_x + vx1 / 60, 0, SCREEN_WIDTH_MILLI as int);
        let py1 = clamped(
            self.pos_y - vy2 / 60,
            -POS_LIMIT_MILLI as int,
            POS_LIMIT_MILLI as int,
        );
        LunarLander {
            pos_x: px1 as i64,
            pos_y: py1 as i64,
            vel_x: vx1 as i64,
            vel_y: vy2 as i64,
            angle: self.angle,
            thrust: self.thrust,
            fuel: fuel1 as i64,
            landing_safety_checked: self.landing_safety_checked,
            landed_safely: self.landed_safely,
        }
    }

    /// Advance the lander by one 1/60 s tick.
    pub fn update(&mut self)
        requires
            old(self).wf(),
        ensures
            *final(self) == old(self).spec_step(),
            final(self).wf(),
    {
        if self.fuel > 0 && self.thrust > 0 {
            let c = cos_mrad(self.angle);
            let s = sin_mrad(self.angle);
            let ghost tl = self.thrust;
            proof {
                assert(-1_000_000 <= tl * c <= 1_000_000) by (nonlinear_arith)
                    requires
                        0 <= tl <= 1000,
                        -1000 <= c <= 1000,
                ;
                assert(-1_000_000 <= tl * s <= 1_000_000) by (nonlinear_arith)
                    requires
                        0 <= tl <= 1000,
                        -1000 <= s <= 1000,
                ;
            }
            let dvx = floor_div(-(self.thrust * c * 3500), 60_000_000);
            let dvy = floor_div(self.thrust * s * 3500, 60_000_000);
            self.vel_x = clamp_i64(self.vel_x + dvx, -VEL_LIMIT_MILLI, VEL_LIMIT_MILLI);
            self.vel_y = clamp_i64(self.vel_y + dvy, -VEL_LIMIT_MILLI, VEL_LIMIT_MILLI);
            self.fuel = clamp_i64(self.fuel - self.thrust / 2, 0, FULL_TANK_MILLI);
        }
        self.vel_y = clamp_i64(
            self.vel_y - GRAVITY_MILLI_PER_TICK,
            -VEL_LIMIT_MILLI,
            VEL_LIMIT_MILLI,
        );
        let step_x = floor_div(self.vel_x, 60);
        let step_y = floor_div(self.vel_y, 60);
        self.pos_x = clamp_i64(self.pos_x + step_x, 0, SCREEN_WIDTH_MILLI);
        self.pos_y = clamp_i64(self.pos_y - step_y, -POS_LIMIT_MILLI, POS_LIMIT_MILLI);
    }

    /// Set the throttle: the requested level clamped into `[0, 1000]`,
    /// or exactly 0 whenever the tank is empty, whatever was requested.
    pub fn apply_thrust(&mut self, amount: i64)
        requires
            old(self).wf(),
        ensures
            final(self).thrust == (if old(self).fuel == 0 {
                0int
            } else {
                clamped(amount as int, 0, FULL_THRUST_MILLI as int)
            }),
            final(self).pos_x == old(self).pos_x,
            final(self).pos_y == old(self).pos_y,
            final(self).vel_x == old(self).vel_x,
            final(self).vel_y == old(self).vel_y,
            final(self).angle == old(self).angle,
            final(self).fuel == old(self).fuel,
            final(self).landing_safety_checked == old(self).landing_safety_checked,
            final(self).landed_safely == old(self).landed_safely,
            final(self).wf(),
    {
        self.thrust = if self.fuel > 0 {
            clamp_i64(amount, 0, FULL_THRUST_MILLI)
        } else {
            0
        };
    }

    /// Turn by `amount` milli-radians (of either sign); the new angle is
    /// the sum wrapped into `[0, 2 pi)`.
    pub fn rotate(&mut self, amount: i64)
        requires
            old(self).wf(),
        ensures
            final(self).angle == (old(self).angle + amount) % (TWO_PI_MRAD as int),
            0 <= final(self).angle < TWO_PI_MRAD,
            final(self).pos_x == old(self).pos_x,
            final(self).pos_y == old(self).pos_y,
            final(self).vel_x == old(self).vel_x,
            final(self).vel_y == old(self).vel_y,
            final(self).thrust == old(self).thrust,
            final(self).fuel == old(self).fuel,
            final(self).landing_safety_checked == old(self).landing_safety_checked,
            final(self).landed_safely == old(self).landed_safely,
            final(self).wf(),
    {
        let turn = wrap_mrad(amount);
        let wrapped = wrap_mrad(self.angle + turn);
        proof {
            lemma_small_mod(old(self).angle as nat, TWO_PI_MRAD as nat);
            lemma_add_mod_noop(old(self).angle as int, amount as int, TWO_PI_MRAD as int);
        }
        self.angle = wrapped;
    }

    /// The world point of a local-frame offset `(ox, oy)` rotated by the
    /// current angle and carried to the lander's position.
    pub open spec fn local_point_spec(self, ox: int, oy: int) -> MilliPoint {
        MilliPoint {
            x: (self.pos_x + (ox * cos_mrad_spec(self.angle as int) - oy * sin_mrad_spec(
                self.angle as int,
            )) / 1000) as i64,
            y: (self.pos_y + (ox * sin_mrad_spec(self.angle as int) + oy * cos_mrad_spec(
                self.angle as int,
            )) / 1000) as i64,
        }
    }

    /// Rotate the local-frame offset `(ox, oy)` by the current angle and
    /// carry it to the lander's position.
    fn local_point(&self, ox: i64, oy: i64) -> (p: MilliPoint)
        requires
            self.wf(),
            -20_000 <= ox <= 20_000,
            -20_000 <= oy <= 20_000,
        ensures
            p == self.local_point_spec(ox as int, oy as int),
    {
        let c = cos_mrad(self.angle);
        let s = sin_mrad(self.angle);
        proof {
            assert(-20_000_000 <= ox * c <= 20_000_000 && -20_000_000 <= ox * s
                <= 20_000_000) by (nonlinear_arith)
                requires
                    -20_000 <= ox <= 20_000,
                    -1000 <= c <= 1000,
                    -1000 <= s <= 1000,
            ;
            assert(-20_000_000 <= oy * c <= 20_000_000 && -20_000_000 <= oy * s
                <= 20_000_000) by (nonlinear_arith)
                requires
                    -20_000 <= oy <= 20_000,
                    -1000 <= c <= 1000,
                    -1000 <= s <= 1000,
            ;
        }
        let dx = floor_div(ox * c - oy * s, 1000);
        let dy = floor_div(ox * s + oy * c, 1000);
        MilliPoint { x: self.pos_x + dx, y: self.pos_y + dy }
    }

    /// The three corners of the lander's body triangle: nose, left side,
    /// right side.
    pub fn get_vertices(&self) -> (r: Vec<MilliPoint>)
        requires
            self.wf(),
        ensures
            r@.len() == 3,
            r@[0] == self.local_point_spec(0, 15_000),
            r@[1] == self.local_point_spec(-10_000, -10_000),
            r@[2] == self.local_point_spec(10_000, -10_000),
    {
        let mut v: Vec<MilliPoint> = Vec::new();
        v.push(self.local_point(0, 15_000));
        v.push(self.local_point(-10_000, -10_000));
        v.push(self.local_point(10_000, -10_000));
        v
    }

    /// The three corners of the exhaust-flame triangle, drawn when the
    /// throttle is open and fuel remains.
    pub fn get_flame_vertices(&self) -> (r: Vec<MilliPoint>)
        requires
            self.wf(),
        ensures
            r@.len() == 3,
            r@[0] == self.local_point_spec(-5_000, -8_000),
            r@[1] == self.local_point_spec(5_000, -8_000),
            r@[2] == self.local_point_spec(0, -20_000),
    {
        let mut v: Vec<MilliPoint> = Vec::new();
        v.push(self.local_point(-5_000, -8_000));
        v.push(self.local_point(5_000, -8_000));
        v.push(self.local_point(0, -20_000));
        v
    }

    /// The two leg contact points, the same points collision testing
    /// uses.
    pub fn get_legs_points(&self) -> (r: Vec<MilliPoint>)
        requires
            self.wf(),
        ensures
            r@.len() == 2,
            r@[0] == self.local_point_spec(-15_000, -5_000),
            r@[1] == self.local_point_spec(15_000, -5_000),
    {
        let mut v: Vec<MilliPoint> = Vec::new();
        v.push(self.local_point(-15_000, -5_000));
        v.push(self.local_point(15_000, -5_000));
        v
    }

    /// The touchdown test: speed within 2 units/s and attitude within
    /// 0.15 rad of the surface.
    pub open spec fn spec_safety_verdict(self, surface_angle: int) -> bool {
        &&& self.vel_x * self.vel_x + self.vel_y * self.vel_y <= 4_000_000
        &&& -MAX_SAFE_LANDING_ANGLE_MRAD <= self.angle - surface_angle
            <= MAX_SAFE_LANDING_ANGLE_MRAD
    }

    /// The state after a safety check against `surface_angle`: a no-op
    /// once a verdict exists, else the verdict is recorded and frozen.
    pub open spec fn spec_checked(self, surface_angle: int) -> LunarLander {
        if self.landing_safety_checked {
            self
        } else {
            LunarLander {
                landing_safety_checked: true,
                landed_safely: self.spec_safety_verdict(surface_angle),
                ..self
            }
        }
    }

    /// Record the landing verdict against the surface angle met, unless
    /// one was already recorded.
    pub fn check_landing_safety(&mut self, surface_angle: i64)
        requires
            old(self).wf(),
            -HALF_PI_MRAD <= surface_angle <= HALF_PI_MRAD,
        ensures
            *final(self) == old(self).spec_checked(surface_angle as int),
            final(self).wf(),
    {
        if !self.landing_safety_checked {
            let slow = if self.vel_x > MAX_SAFE_LANDING_VELOCITY_MILLI || self.vel_x
                < -MAX_SAFE_LANDING_VELOCITY_MILLI || self.vel_y
                > MAX_SAFE_LANDING_VELOCITY_MILLI || self.vel_y
                < -MAX_SAFE_LANDING_VELOCITY_MILLI {
                let ghost vx = self.vel_x;
                let ghost vy = self.vel_y;
                proof {
                    assert(vx * vx + vy * vy > 4_000_000) by (nonlinear_arith)
                        requires
                            vx > 2000 || vx < -2000 || vy > 2000 || vy < -2000,
                    ;
                }
                false
            } else {
                let ghost vx = self.vel_x;
                let ghost vy = self.vel_y;
                proof {
                    assert(0 <= vx * vx <= 4_000_000 && 0 <= vy * vy <= 4_000_000)
                        by (nonlinear_arith)
                        requires
                            -2000 <= vx <= 2000,
                            -2000 <= vy <= 2000,
                    ;
                }
                self.vel_x * self.vel_x + self.vel_y * self.vel_y <= 4_000_000
            };
            let diff = self.angle - surface_angle;
            let upright = -MAX_SAFE_LANDING_ANGLE_MRAD <= diff && diff
                <= MAX_SAFE_LANDING_ANGLE_MRAD;
            self.landed_safely = slow && upright;
            self.landing_safety_checked = true;
        }
    }

    /// Whether the exhaust flame is drawn: the throttle is open and fuel
    /// remains.
    pub fn is_flame_visible(&self) -> (r: bool)
        ensures
            r == (self.thrust > 0 && self.fuel > 0),
    {
        self.thrust > 0 && self.fuel > 0
    }

    /// The current angle in milli-degrees, for the heads-up display
    /// (57296/1000 approximates 180/pi).
    pub fn angle_millidegrees(&self) -> (r: i64)
        requires
            self.wf(),
        ensures
            r == self.angle * 57296 / 1000,
            0 <= r < 360_000,
    {
        floor_div(self.angle * 57296, 1000)
    }

    /// Whether the recorded verdict says the touchdown was safe.
    pub fn is_landed_safely(&self) -> (r: bool)
        ensures
            r == self.landed_safely,
    {
        self.landed_safely
    }
}

/// Across one tick, fuel never increases and never goes negative,
/// whatever the state; so along any tick sequence the fuel trace is
/// non-increasing and non-negative.
pub proof fn lemma_fuel_monotone(s: LunarLander)
    requires
        s.wf(),
    ensures
        s.spec_step().fuel <= s.fuel,
        0 <= s.spec_step().fuel,
{
}

/// The state after `n` further ticks.
pub open spec fn spec_step_times(l: LunarLander, n: int) -> LunarLander
    decreases n,
{
    if n <= 0 {
        l
    } else {
        spec_step_times(l, n - 1).spec_step()
    }
}

/// A tick keeps every field in its range.
pub proof fn lemma_step_preserves_wf(l: LunarLander)
    requires
        l.wf(),
    ensures
        l.spec_step().wf(),
{
}

/// So does any number of ticks.
pub proof fn lemma_step_times_wf(l: LunarLander, n: int)
    requires
        l.wf(),
    ensures
        spec_step_times(l, n).wf(),
    decreases n,
{
    if n > 0 {
        lemma_step_times_wf(l, n - 1);
    }
}

/// Along every tick sequence the fuel trace is non-increasing and
/// non-negative: after more ticks there is never more fuel, and never
/// less than none.
pub proof fn lemma_fuel_trace_monotone(l: LunarLander, m: int, n: int)
    requires
        l.wf(),
        0 <= m <= n,
    ensures
        spec_step_times(l, n).fuel <= spec_step_times(l, m).fuel,
        0 <= spec_step_times(l, n).fuel,
    decreases n - m,
{
    lemma_step_times_wf(l, n);
    if m < n {
        lemma_fuel_trace_monotone(l, m, n - 1);
        lemma_step_times_wf(l, n - 1);
        lemma_fuel_monotone(spec_step_times(l, n - 1));
    }
}

/// A recorded landing verdict is frozen: safety checks after the first
/// change neither the verdict nor the checked flag, whatever surface
/// angles they are given.
pub proof fn lemma_safety_check_idempotent(s: LunarLander, a1: int, a2: int)
    ensures
        s.spec_checked(a1).spec_checked(a2) == s.spec_checked(a1),
{
}

/// Integration never carries the lander off the sides: if the x step
/// would leave the screen, the new position is exactly the edge, and it
/// always stays within `[0, SCREEN_WIDTH_MILLI]`.
pub proof fn lemma_position_clamped(s: LunarLander)
    requires
        s.wf(),
    ensures
        s.pos_x + s.spec_step().vel_x / 60 < 0 ==> s.spec_step().pos_x == 0,
        s.pos_x + s.spec_step().vel_x / 60 > SCREEN_WIDTH_MILLI ==> s.spec_step().pos_x
            == SCREEN_WIDTH_MILLI,
        0 <= s.spec_step().pos_x <= SCREEN_WIDTH_MILLI,
{
}

} // verus!
