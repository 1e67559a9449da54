use lunar_lander::lander::LunarLander;

fn start() -> LunarLander {
    LunarLander::new(400_000, 100_000)
}

#[test]
fn fuel_never_increases_and_never_goes_negative() {
    let mut l = start();
    l.apply_thrust(1000);
    let mut prev = l.fuel;
    for _ in 0..250 {
        l.update();
        assert!(l.fuel <= prev, "fuel increased across a tick");
        assert!(l.fuel >= 0, "fuel went negative");
        prev = l.fuel;
        // keep the throttle open so fuel keeps draining
        l.apply_thrust(1000);
    }
    // full throttle drains 500 milli-units per tick: dry after 200 ticks
    assert_eq!(l.fuel, 0);
}

#[test]
fn thrust_forced_to_zero_when_fuel_is_exhausted() {
    let mut l = start();
    l.fuel = 0;
    l.apply_thrust(1000);
    assert_eq!(l.thrust, 0);
    l.apply_thrust(700);
    assert_eq!(l.thrust, 0);
}

#[test]
fn thrust_level_is_clamped() {
    let mut l = start();
    l.apply_thrust(5000);
    assert_eq!(l.thrust, 1000);
    l.apply_thrust(-5);
    assert_eq!(l.thrust, 0);
    l.apply_thrust(500);
    assert_eq!(l.thrust, 500);
}

#[test]
fn rotation_always_lands_in_the_angle_range() {
    let mut l = start();
    l.rotate(-100);
    assert_eq!(l.angle, 6183);
    l.rotate(200);
    assert_eq!(l.angle, 100);
    l.rotate(-7000);
    assert_eq!(l.angle, 5666);
    l.rotate(6283);
    assert_eq!(l.angle, 5666);
    let deltas: [i64; 6] = [i64::MIN, i64::MAX, -6283, 12345678, -999999999, 3];
    for d in deltas {
        l.rotate(d);
        assert!(0 <= l.angle && l.angle < 6283, "angle left [0, 2*pi)");
    }
}

#[test]
fn one_tick_from_rest_applies_gravity_only() {
    let mut l = start();
    l.update();
    assert_eq!(l.vel_x, 0);
    assert_eq!(l.vel_y, -27);
    assert_eq!(l.pos_x, 400_000);
    assert_eq!(l.pos_y, 100_001);
    assert_eq!(l.fuel, 100_000);
}

#[test]
fn one_tick_at_full_throttle_upright() {
    let mut l = start();
    l.apply_thrust(1000);
    l.update();
    assert_eq!(l.vel_x, -59);
    assert_eq!(l.vel_y, -27);
    assert_eq!(l.pos_x, 399_999);
    assert_eq!(l.pos_y, 100_001);
    assert_eq!(l.fuel, 99_500);
}

#[test]
fn position_x_is_clamped_to_the_screen_edges() {
    let mut l = start();
    l.pos_x = 1_000;
    l.vel_x = -100_000;
    l.update();
    assert_eq!(l.pos_x, 0);

    let mut r = start();
    r.pos_x = 799_000;
    r.vel_x = 100_000;
    r.update();
    assert_eq!(r.pos_x, 800_000);
}

#[test]
fn leg_points_follow_the_angle() {
    let mut l = start();
    l.pos_y = 510_000;
    l.rotate(50);
    let legs = l.get_legs_points();
    assert_eq!(legs.len(), 2);
    assert_eq!(legs[0].x, 385_280);
    assert_eq!(legs[0].y, 504_260);
    assert_eq!(legs[1].x, 415_220);
    assert_eq!(legs[1].y, 505_760);
}

#[test]
fn body_and_flame_vertices_are_three_points() {
    let l = start();
    let body = l.get_vertices();
    assert_eq!(body.len(), 3);
    // upright nose: offset (0, 15) rotated by angle 0 (cosine 999/1000)
    assert_eq!(body[0].x, 400_000);
    assert_eq!(body[0].y, 100_000 + 14_985);
    let flame = l.get_flame_vertices();
    assert_eq!(flame.len(), 3);
    assert_eq!(flame[2].x, 400_000);
    assert_eq!(flame[2].y, 100_000 - 19_980);
}

#[test]
fn angle_readout_in_millidegrees() {
    let mut l = start();
    assert_eq!(l.angle_millidegrees(), 0);
    l.rotate(1571);
    // 1571 mrad * 57296 / 1000
    assert_eq!(l.angle_millidegrees(), 1571 * 57296 / 1000);
}

#[test]
fn safety_check_is_idempotent() {
    let mut l = start();
    l.vel_y = 1000;
    l.check_landing_safety(0);
    assert!(l.landing_safety_checked);
    assert!(l.is_landed_safely());
    // a second check with a hostile surface angle changes nothing
    l.check_landing_safety(1500);
    assert!(l.landing_safety_checked);
    assert!(l.is_landed_safely());
    // even after the state would now fail the test
    l.vel_y = 500_000;
    l.check_landing_safety(1500);
    assert!(l.is_landed_safely());
}
