//! The session: one lander, one terrain and an optional explosion,
//! advanced frame by frame and driven by logical key events. A thin
//! adapter owns the real window and event loop and calls in here.

use vstd::prelude::*;
use crate::fxp::{MilliPoint, TWO_PI_MRAD, clamped};
use crate::lander::{LunarLander, SCREEN_WIDTH_MILLI, FULL_TANK_MILLI, FULL_THRUST_MILLI};
use crate::terrain::{
    Terrain, generate_terrain, generated_shape, has_flat_pad_run, spec_collision,
    surface_angle_of,
};
use crate::particles::{Explosion, stepped_live, PARTICLE_COUNT};
use crate::rng::rand_range_i64;

verus! {

/// Height of the playfield in milli-units.
pub const SCREEN_HEIGHT_MILLI: i64 = 600_000;

/// The lander's fixed start position.
pub const START_X_MILLI: i64 = 400_000;

/// The lander's fixed start height.
pub const START_Y_MILLI: i64 = 100_000;

/// One rotation key press turns by 0.1 rad.
pub const ROTATE_STEP_MRAD: i64 = 100;

/// Half throttle, set by the alternate thrust key.
pub const HALF_THRUST_MILLI: i64 = 500;

/// Samples in a generated terrain.
pub const TERRAIN_POINTS: usize = 100;

/// Landing pads flattened into a generated terrain.
pub const TERRAIN_PADS: usize = 3;

/// Points per landing pad.
pub const TERRAIN_PAD_WIDTH: usize = 5;

/// Background stars drawn behind the scene.
pub const STAR_COUNT: usize = 100;

/// The logical keys the game reacts to.
#[derive(Clone, Copy, PartialEq, Eq, Structural, Debug)]
pub enum GameKey {
    Up,
    Left,
    Right,
    Space,
    R,
}

/// The whole game session.
pub struct MainState {
    pub lander: LunarLander,
    pub terrain: Terrain,
    pub stars: Vec<MilliPoint>,
    pub game_over: bool,
    pub explosion: Option<Explosion>,
}

/// The lander every session and reset starts from.
pub open spec fn start_lander() -> LunarLander {
    LunarLander {
        pos_x: START_X_MILLI,
        pos_y: START_Y_MILLI,
        vel_x: 0,
        vel_y: 0,
        angle: 0,
        thrust: 0,
        fuel: FULL_TANK_MILLI,
        landing_safety_checked: false,
        landed_safely: false,
    }
}

/// A random star field covering the screen.
pub fn generate_stars() -> (v: Vec<MilliPoint>)
    ensures
        v@.len() == STAR_COUNT,
        forall|i: int|
            0 <= i < v@.len() ==> 0 <= (#[trigger] v@[i]).x < SCREEN_WIDTH_MILLI && 0 <= v@[i].y
                < SCREEN_HEIGHT_MILLI,
{
    let mut stars: Vec<MilliPoint> = Vec::new();
    let mut i: usize = 0;
    while i < STAR_COUNT
        invariant
            i <= STAR_COUNT,
            stars@.len() == i,
            forall|j: int|
                0 <= j < i ==> 0 <= (#[trigger] stars@[j]).x < SCREEN_WIDTH_MILLI && 0
                    <= stars@[j].y < SCREEN_HEIGHT_MILLI,
        decreases STAR_COUNT - i,
    {
        let x = rand_range_i64(0, SCREEN_WIDTH_MILLI - 1);
        let y = rand_range_i64(0, SCREEN_HEIGHT_MILLI - 1);
        stars.push(MilliPoint { x, y });
        i += 1;
    }
    stars
}

/// The lander with its throttle set to `level`, forced to 0 on an empty
/// tank.
pub open spec fn spec_thrust_set(l: LunarLander, level: int) -> LunarLander {
    LunarLander {
        thrust: (if l.fuel == 0 {
            0int
        } else {
            clamped(level, 0, FULL_THRUST_MILLI as int)
        }) as i64,
        ..l
    }
}

/// The lander turned by `d` milli-radians, wrapped into `[0, 2 pi)`.
pub open spec fn spec_rotated(l: LunarLander, d: int) -> LunarLander {
    LunarLander { angle: ((l.angle + d) % (TWO_PI_MRAD as int)) as i64, ..l }
}

impl MainState {
    /// Every component is well-formed.
    pub open spec fn wf(self) -> bool {
        &&& self.lander.wf()
        &&& self.terrain.wf()
        &&& match self.explosion {
            Some(e) => e.wf(),
            None => true,
        }
    }

    /// A fresh session: a newly generated terrain and star field, the
    /// lander at its start state, no explosion, game running.
    pub fn new() -> (st: MainState)
        ensures
            st.wf(),
            st.lander == start_lander(),
            !st.game_over,
            st.explosion is None,
            generated_shape(
                st.terrain,
                SCREEN_WIDTH_MILLI as int,
                SCREEN_HEIGHT_MILLI as int,
                TERRAIN_POINTS as int,
            ),
            has_flat_pad_run(st.terrain.points@, TERRAIN_PAD_WIDTH as int),
            forall|i: int|
                0 <= i < st.terrain.points@.len() && (#[trigger] st.terrain.points@[i]).is_landing_pad
                    ==> 1 <= i < TERRAIN_POINTS - 1,
            st.stars@.len() == STAR_COUNT,
            forall|i: int|
                0 <= i < st.stars@.len() ==> 0 <= (#[trigger] st.stars@[i]).x < SCREEN_WIDTH_MILLI
                    && 0 <= st.stars@[i].y < SCREEN_HEIGHT_MILLI,
    {
        let terrain = match generate_terrain(
            SCREEN_WIDTH_MILLI,
            SCREEN_HEIGHT_MILLI,
            TERRAIN_POINTS,
            TERRAIN_PADS,
            TERRAIN_PAD_WIDTH,
        ) {
            Ok(t) => t,
            Err(_) => unreached(),
        };
        let stars = generate_stars();
        MainState {
            lander: LunarLander::new(START_X_MILLI, START_Y_MILLI),
            terrain,
            stars,
            game_over: false,
            explosion: None,
        }
    }

    /// Put the session back to its start: the lander fresh, the game
    /// running, any explosion discarded. The terrain and stars stay.
    pub fn reset(&mut self)
        requires
            old(self).wf(),
        ensures
            final(self).wf(),
            final(self).lander == start_lander(),
            !final(self).game_over,
            final(self).explosion is None,
            final(self).terrain == old(self).terrain,
            final(self).stars == old(self).stars,
    {
        self.lander = LunarLander::new(START_X_MILLI, START_Y_MILLI);
        self.game_over = false;
        self.explosion = None;
    }

    /// One frame. While the game runs: the lander ticks, then the legs
    /// are tested against the terrain; a touch ends the game, records
    /// the landing verdict, and on an unsafe verdict bursts an explosion
    /// at the lander. After the game is over only the explosion keeps
    /// ticking.
    pub fn update(&mut self)
        requires
            old(self).wf(),
        ensures
            final(self).wf(),
            final(self).terrain == old(self).terrain,
            final(self).stars == old(self).stars,
            old(self).game_over ==> ({
                &&& final(self).lander == old(self).lander
                &&& final(self).game_over
                &&& match old(self).explosion {
                    Some(e) => (final(self).explosion matches Some(e2) && e2.particles@
                        == stepped_live(e.particles@)),
                    None => final(self).explosion is None,
                }
            }),
            !old(self).game_over ==> ({
                let l1 = old(self).lander.spec_step();
                let leg0 = l1.local_point_spec(-15_000, -5_000);
                let leg1 = l1.local_point_spec(15_000, -5_000);
                match spec_collision(old(self).terrain.points@, leg0, leg1) {
                    Option::None => final(self).lander == l1 && !final(self).game_over && final(self).explosion == old(self).explosion,
                    Option::Some(hit) => ({
                        let l2 = l1.spec_checked(
                            surface_angle_of(old(self).terrain.points@, hit.1),
                        );
                        &&& final(self).lander == l2
                        &&& final(self).game_over
                        &&& (l2.landed_safely ==> final(self).explosion == old(self).explosion)
                        &&& (!l2.landed_safely ==> (final(self).explosion matches Some(e)
                            && e.particles@.len() == PARTICLE_COUNT && (forall|i: int|
                            0 <= i < e.particles@.len() ==> (#[trigger] e.particles@[i]).pos_x
                                == l2.pos_x && e.particles@[i].pos_y == l2.pos_y)))
                    }),
                }
            }),
    {
        if !self.game_over {
            self.lander.update();
            let hit = self.terrain.check_collision(&mut self.lander);
            if hit {
                self.game_over = true;
                if !self.lander.is_landed_safely() {
                    self.explosion = Some(Explosion::new(self.lander.pos_x, self.lander.pos_y));
                }
            }
        } else {
            let taken = self.explosion.take();
            match taken {
                Some(mut e) => {
                    e.update();
                    self.explosion = Some(e);
                },
                None => {
                    self.explosion = None;
                },
            }
        }
    }

    /// Whether the lander is drawn this frame: the game is running, or
    /// it ended in a safe touchdown.
    pub fn is_lander_visible(&self) -> (r: bool)
        ensures
            r == (!self.game_over || self.lander.landed_safely),
    {
        !self.game_over || self.lander.is_landed_safely()
    }

    /// React to a key press: full or half throttle, a rotation step of
    /// either sign, or a reset; everything but reset is ignored once the
    /// game is over.
    pub fn key_down_event(&mut self, key: GameKey)
        requires
            old(self).wf(),
        ensures
            final(self).wf(),
            final(self).terrain == old(self).terrain,
            final(self).stars == old(self).stars,
            key == GameKey::R ==> final(self).lander == start_lander() && !final(self).game_over
                && final(self).explosion is None,
            key != GameKey::R ==> final(self).game_over == old(self).game_over && final(self).explosion == old(self).explosion,
            key != GameKey::R && old(self).game_over ==> final(self).lander == old(self).lander,
            !old(self).game_over ==> {
                &&& key == GameKey::Up ==> final(self).lander == spec_thrust_set(
                    old(self).lander,
                    FULL_THRUST_MILLI as int,
                )
                &&& key == GameKey::Space ==> final(self).lander == spec_thrust_set(
                    old(self).lander,
                    HALF_THRUST_MILLI as int,
                )
                &&& key == GameKey::Left ==> final(self).lander == spec_rotated(
                    old(self).lander,
                    -ROTATE_STEP_MRAD as int,
                )
                &&& key == GameKey::Right ==> final(self).lander == spec_rotated(
                    old(self).lander,
                    ROTATE_STEP_MRAD as int,
                )
            },
    {
        if !self.game_over {
            match key {
                GameKey::Up => self.lander.apply_thrust(FULL_THRUST_MILLI),
                GameKey::Left => self.lander.rotate(-ROTATE_STEP_MRAD),
                GameKey::Right => self.lander.rotate(ROTATE_STEP_MRAD),
                GameKey::Space => self.lander.apply_thrust(HALF_THRUST_MILLI),
                GameKey::R => self.reset(),
            }
        } else {
            if matches!(key, GameKey::R) {
                self.reset();
            }
        }
    }

    /// React to a key release: letting go of a thrust key closes the
    /// throttle; everything else is ignored, as is any key once the game
    /// is over.
    pub fn key_up_event(&mut self, key: GameKey)
        requires
            old(self).wf(),
        ensures
            final(self).wf(),
            final(self).terrain == old(self).terrain,
            final(self).stars == old(self).stars,
            final(self).game_over == old(self).game_over,
            final(self).explosion == old(self).explosion,
            !old(self).game_over && (key == GameKey::Up || key == GameKey::Space) ==> final(self).lander == spec_thrust_set(old(self).lander, 0),
            old(self).game_over || !(key == GameKey::Up || key == GameKey::Space) ==> final(self).lander == old(self).lander,
    {
        if !self.game_over {
            match key {
                GameKey::Up => self.lander.apply_thrust(0),
                GameKey::Space => self.lander.apply_thrust(0),
                _ => {},
            }
        }
    }
}

} // verus!
