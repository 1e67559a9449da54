use lunar_lander::game::{MainState, GameKey};
use lunar_lander::terrain::{Terrain, TerrainPoint};

fn crashing_session() -> MainState {
    let mut st = MainState::new();
    st.terrain = Terrain {
        points: vec![
            TerrainPoint { x: 0, y: 500_000, is_landing_pad: false },
            TerrainPoint { x: 800_000, y: 500_000, is_landing_pad: false },
        ],
    };
    st.lander.pos_y = 499_000;
    st.lander.vel_y = -240_000;
    st
}

#[test]
fn fresh_session_is_ready_to_fly() {
    let st = MainState::new();
    assert_eq!(st.lander.pos_x, 400_000);
    assert_eq!(st.lander.pos_y, 100_000);
    assert_eq!(st.lander.fuel, 100_000);
    assert_eq!(st.lander.thrust, 0);
    assert_eq!(st.lander.angle, 0);
    assert!(!st.game_over);
    assert!(st.explosion.is_none());
    assert_eq!(st.terrain.points.len(), 100);
    assert_eq!(st.stars.len(), 100);
    for s in &st.stars {
        assert!(0 <= s.x && s.x < 800_000);
        assert!(0 <= s.y && s.y < 600_000);
    }
}

#[test]
fn keys_drive_throttle_and_rotation() {
    let mut st = MainState::new();
    st.key_down_event(GameKey::Up);
    assert_eq!(st.lander.thrust, 1000);
    st.key_up_event(GameKey::Up);
    assert_eq!(st.lander.thrust, 0);
    st.key_down_event(GameKey::Space);
    assert_eq!(st.lander.thrust, 500);
    st.key_up_event(GameKey::Space);
    assert_eq!(st.lander.thrust, 0);
    st.key_down_event(GameKey::Left);
    assert_eq!(st.lander.angle, 6183);
    st.key_down_event(GameKey::Right);
    assert_eq!(st.lander.angle, 0);
    st.key_down_event(GameKey::Right);
    assert_eq!(st.lander.angle, 100);
}

#[test]
fn reset_restores_the_start_state_and_keeps_the_terrain() {
    let mut st = MainState::new();
    let terrain_before: Vec<(i64, i64)> =
        st.terrain.points.iter().map(|p| (p.x, p.y)).collect();
    st.key_down_event(GameKey::Up);
    st.key_down_event(GameKey::Left);
    st.update();
    st.key_down_event(GameKey::R);
    assert_eq!(st.lander.pos_x, 400_000);
    assert_eq!(st.lander.pos_y, 100_000);
    assert_eq!(st.lander.fuel, 100_000);
    assert_eq!(st.lander.thrust, 0);
    assert_eq!(st.lander.angle, 0);
    assert!(!st.game_over);
    assert!(st.explosion.is_none());
    let terrain_after: Vec<(i64, i64)> =
        st.terrain.points.iter().map(|p| (p.x, p.y)).collect();
    assert_eq!(terrain_before, terrain_after);
}

#[test]
fn a_hard_fall_ends_in_an_explosion_that_burns_out() {
    let mut st = crashing_session();
    let mut ticks = 0;
    while !st.game_over && ticks < 100 {
        st.update();
        ticks += 1;
    }
    assert!(st.game_over, "the fall never hit the ground");
    assert!(!st.lander.is_landed_safely());
    let count = match &st.explosion {
        Some(e) => e.particles.len(),
        None => panic!("unsafe landing spawned no explosion"),
    };
    assert_eq!(count, 100);
    // once the game is over only the explosion advances
    let frozen = (st.lander.pos_x, st.lander.pos_y, st.lander.vel_y);
    for _ in 0..90 {
        st.update();
    }
    assert_eq!(frozen, (st.lander.pos_x, st.lander.pos_y, st.lander.vel_y));
    match &st.explosion {
        Some(e) => assert!(e.is_finished()),
        None => panic!("explosion was discarded"),
    }
}

#[test]
fn key_events_after_game_over_are_ignored_except_reset() {
    let mut st = crashing_session();
    for _ in 0..100 {
        st.update();
        if st.game_over {
            break;
        }
    }
    assert!(st.game_over);
    st.key_down_event(GameKey::Up);
    assert_eq!(st.lander.thrust, 0);
    st.key_down_event(GameKey::Left);
    st.key_down_event(GameKey::R);
    assert!(!st.game_over);
    assert!(st.explosion.is_none());
    assert_eq!(st.lander.angle, 0);
}

#[test]
fn flame_shows_only_while_thrusting_with_fuel() {
    let mut st = MainState::new();
    assert!(!st.lander.is_flame_visible());
    st.key_down_event(GameKey::Up);
    assert!(st.lander.is_flame_visible());
    st.key_up_event(GameKey::Up);
    assert!(!st.lander.is_flame_visible());
    st.lander.fuel = 0;
    st.lander.thrust = 1000;
    assert!(!st.lander.is_flame_visible());
}

#[test]
fn lander_is_hidden_after_a_crash_and_shown_after_a_safe_landing() {
    let mut st = MainState::new();
    assert!(st.is_lander_visible());
    let mut crash = crashing_session();
    for _ in 0..100 {
        crash.update();
        if crash.game_over {
            break;
        }
    }
    assert!(crash.game_over);
    assert!(!crash.is_lander_visible());
    // a gentle fall onto the same flat ground stays visible
    let mut soft = crashing_session();
    soft.lander.pos_y = 504_500;
    soft.lander.vel_y = -500;
    for _ in 0..200 {
        soft.update();
        if soft.game_over {
            break;
        }
    }
    assert!(soft.game_over);
    assert!(soft.lander.is_landed_safely());
    assert!(soft.is_lander_visible());
}
