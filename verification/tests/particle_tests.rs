use lunar_lander::particles::{Particle, Explosion};

#[test]
fn explosion_starts_with_one_hundred_live_particles_at_the_origin() {
    let e = Explosion::new(100_000, 100_000);
    assert_eq!(e.particles.len(), 100);
    assert!(!e.is_finished());
    for p in &e.particles {
        assert_eq!(p.pos_x, 100_000);
        assert_eq!(p.pos_y, 100_000);
        assert!(p.lifetime > 0);
        assert!(30 <= p.lifetime && p.lifetime < 90);
        assert_eq!(p.lifetime, p.initial_lifetime);
    }
}

#[test]
fn explosion_is_finished_after_the_longest_possible_lifetime() {
    let mut e = Explosion::new(100_000, 100_000);
    let mut prev = e.particles.len();
    for _ in 0..90 {
        e.update();
        assert!(e.particles.len() <= prev, "live particles grew");
        prev = e.particles.len();
    }
    assert!(e.is_finished());
    assert_eq!(e.particles.len(), 0);
}

#[test]
fn particle_steps_exactly() {
    let mut p = Particle::new(0, 0, 0, 60_000, 60);
    // direction 0: cosine is 999/1000 in the fixed-point model
    assert_eq!(p.vel_x, 59_940);
    assert_eq!(p.vel_y, 0);
    p.update();
    assert_eq!(p.pos_x, 999);
    assert_eq!(p.pos_y, 0);
    assert_eq!(p.lifetime, 59);
    assert_eq!(p.vel_y, -1000);
    p.update();
    assert_eq!(p.pos_x, 1998);
    // position integrates the velocity before the per-tick delta lands
    assert_eq!(p.pos_y, -17);
    assert_eq!(p.vel_y, -2000);
}

#[test]
fn fade_ratio_tracks_remaining_life() {
    let p = Particle {
        pos_x: 0,
        pos_y: 0,
        vel_x: 0,
        vel_y: 0,
        lifetime: 30,
        initial_lifetime: 60,
    };
    assert_eq!(p.fade_ratio_milli(), 500);
    assert!(!p.is_bright_core());
    let q = Particle { lifetime: 45, ..p };
    assert_eq!(q.fade_ratio_milli(), 750);
    assert!(q.is_bright_core());
    let fresh = Particle { lifetime: 60, ..p };
    assert_eq!(fresh.fade_ratio_milli(), 1000);
}
