use lunar_lander::lander::LunarLander;
use lunar_lander::terrain::{
    Terrain, TerrainPoint, TerrainError, generate_terrain, add_landing_pad, point_in_segment,
};
use lunar_lander::fxp::MilliPoint;

fn flat_terrain(height: i64) -> Terrain {
    Terrain {
        points: vec![
            TerrainPoint { x: 0, y: height, is_landing_pad: false },
            TerrainPoint { x: 800_000, y: height, is_landing_pad: false },
        ],
    }
}

#[test]
fn generated_terrain_has_the_documented_shape() {
    let t = match generate_terrain(800_000, 600_000, 100, 3, 5) {
        Ok(t) => t,
        Err(_) => panic!("valid parameters were refused"),
    };
    assert_eq!(t.points.len(), 100);
    assert_eq!(t.points[0].x, 0);
    assert_eq!(t.points[99].x, 800_000);
    for i in 0..99 {
        assert!(t.points[i].x < t.points[i + 1].x, "x not strictly increasing");
    }
    for p in &t.points {
        // heights stay in the band between 2/3 and 5/6 of the screen
        assert!(400_000 <= p.y && p.y <= 500_000, "height left the band");
    }
}

#[test]
fn pads_flattened_at_disjoint_starts_share_their_anchor_height() {
    let mut t = match generate_terrain(800_000, 600_000, 100, 0, 5) {
        Ok(t) => t,
        Err(_) => panic!("valid parameters were refused"),
    };
    for p in &t.points {
        assert!(!p.is_landing_pad);
    }
    let anchors = [t.points[10].y, t.points[30].y, t.points[50].y];
    add_landing_pad(&mut t.points, 10, 5);
    add_landing_pad(&mut t.points, 30, 5);
    add_landing_pad(&mut t.points, 50, 5);
    for (pad, start) in [(0usize, 10usize), (1, 30), (2, 50)] {
        for i in start..start + 5 {
            assert!(t.points[i].is_landing_pad, "pad point not flagged");
            assert_eq!(t.points[i].y, anchors[pad], "pad not flat at its anchor height");
        }
    }
    for (i, p) in t.points.iter().enumerate() {
        let covered = (10..15).contains(&i) || (30..35).contains(&i) || (50..55).contains(&i);
        assert_eq!(p.is_landing_pad, covered, "flag outside the pads");
    }
}

#[test]
fn generation_rejects_bad_parameters() {
    assert_eq!(
        generate_terrain(800_000, 600_000, 1, 0, 5).unwrap_err(),
        TerrainError::TooFewPoints
    );
    assert_eq!(
        generate_terrain(0, 600_000, 100, 3, 5).unwrap_err(),
        TerrainError::InvalidScreen
    );
    assert_eq!(
        generate_terrain(800_000, 600_000, 100, 3, 0).unwrap_err(),
        TerrainError::PadOutOfRange
    );
    assert_eq!(
        generate_terrain(800_000, 600_000, 4, 1, 5).unwrap_err(),
        TerrainError::PadOutOfRange
    );
    // a pad width that just fits is accepted
    assert!(generate_terrain(800_000, 600_000, 7, 1, 5).is_ok());
}

#[test]
fn point_in_segment_matches_interpolation() {
    let p1 = TerrainPoint { x: 0, y: 500_000, is_landing_pad: false };
    let p2 = TerrainPoint { x: 800_000, y: 500_000, is_landing_pad: false };
    assert!(point_in_segment(MilliPoint { x: 400_000, y: 500_000 }, p1, p2));
    assert!(point_in_segment(MilliPoint { x: 400_000, y: 700_000 }, p1, p2));
    assert!(!point_in_segment(MilliPoint { x: 400_000, y: 499_999 }, p1, p2));
    assert!(!point_in_segment(MilliPoint { x: -1, y: 700_000 }, p1, p2));
    assert!(!point_in_segment(MilliPoint { x: 800_001, y: 700_000 }, p1, p2));
    // a sloped segment: surface falls 100_000 over 800_000, midpoint at 450_000
    let q2 = TerrainPoint { x: 800_000, y: 400_000, is_landing_pad: false };
    assert!(point_in_segment(MilliPoint { x: 400_000, y: 450_000 }, p1, q2));
    assert!(!point_in_segment(MilliPoint { x: 400_000, y: 449_999 }, p1, q2));
}

#[test]
fn gentle_touchdown_on_flat_ground_is_safe() {
    let t = flat_terrain(500_000);
    let mut l = LunarLander::new(400_000, 510_000);
    l.vel_y = 1000;
    l.rotate(50);
    assert!(t.check_collision(&mut l));
    assert!(l.landing_safety_checked);
    assert!(l.is_landed_safely());
}

#[test]
fn fast_touchdown_on_flat_ground_is_unsafe() {
    let t = flat_terrain(500_000);
    let mut l = LunarLander::new(400_000, 510_000);
    l.vel_y = 5000;
    l.rotate(50);
    assert!(t.check_collision(&mut l));
    assert!(l.landing_safety_checked);
    assert!(!l.is_landed_safely());
}

#[test]
fn verdict_is_frozen_across_repeated_collisions() {
    let t = flat_terrain(500_000);
    let mut l = LunarLander::new(400_000, 510_000);
    l.vel_y = 1000;
    assert!(t.check_collision(&mut l));
    assert!(l.is_landed_safely());
    // the lander is now much too fast, but the verdict was taken already
    l.vel_y = 500_000;
    assert!(t.check_collision(&mut l));
    assert!(l.is_landed_safely());
    assert!(l.landing_safety_checked);
}

#[test]
fn no_collision_above_the_surface() {
    let t = flat_terrain(500_000);
    let mut l = LunarLander::new(400_000, 100_000);
    assert!(!t.check_collision(&mut l));
    assert!(!l.landing_safety_checked);
}

#[test]
fn polygon_closes_with_the_screen_corners() {
    let t = flat_terrain(500_000);
    let poly = t.polygon_points(800_000, 600_000);
    assert_eq!(poly.len(), 4);
    assert_eq!(poly[0], MilliPoint { x: 0, y: 500_000 });
    assert_eq!(poly[1], MilliPoint { x: 800_000, y: 500_000 });
    assert_eq!(poly[2], MilliPoint { x: 800_000, y: 600_000 });
    assert_eq!(poly[3], MilliPoint { x: 0, y: 600_000 });
}

#[test]
fn generation_with_pads_leaves_a_flat_flagged_run_strictly_inside() {
    let t = match generate_terrain(800_000, 600_000, 100, 3, 5) {
        Ok(t) => t,
        Err(_) => panic!("valid parameters were refused"),
    };
    assert!(!t.points[0].is_landing_pad);
    assert!(!t.points[99].is_landing_pad);
    let mut found_flat_run = false;
    for s in 1..95 {
        let run = &t.points[s..s + 5];
        if run.iter().all(|p| p.is_landing_pad && p.y == run[0].y) {
            found_flat_run = true;
        }
    }
    assert!(found_flat_run, "no flat flagged run of five points");
}
