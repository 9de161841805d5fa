use game_test::bullet::bullet_velocity;
use game_test::extent::Extent;
use game_test::geometry::Rect;
use game_test::health::apply_damage;
use game_test::health_bar::HealthBar;
use game_test::hitbox::Hitbox;
use game_test::position::CenterPosition;
use game_test::motion::{input_velocity, step_point, Point, Vector};
use game_test::numeric::{clamp_i64, isqrt_u64, sat_add_u64};
use game_test::ship::Ship;

#[test]
fn overlap_is_symmetric_on_samples() {
    let a = Rect { x: 0, y: 0, w: 10, h: 10 };
    let b = Rect { x: 5, y: 5, w: 2, h: 2 };
    let c = Rect { x: -20, y: -20, w: 5, h: 5 };
    assert_eq!(a.overlaps(&b), b.overlaps(&a));
    assert!(a.overlaps(&b));
    assert_eq!(a.overlaps(&c), c.overlaps(&a));
    assert!(!a.overlaps(&c));
}

#[test]
fn overlap_is_strict_on_shared_edges() {
    // Rectangles sharing only a boundary edge do not overlap.
    let a = Rect { x: 0, y: 0, w: 10, h: 10 };
    let b = Rect { x: 10, y: 0, w: 10, h: 10 };
    assert!(!a.overlaps(&b));
    assert!(!b.overlaps(&a));
    let below = Rect { x: 0, y: 10, w: 10, h: 10 };
    assert!(!a.overlaps(&below));
    assert!(!below.overlaps(&a));
}

#[test]
fn damage_saturates_at_zero() {
    assert_eq!(apply_damage(10, 3), 7);
    assert_eq!(apply_damage(5, 5), 0);
    assert_eq!(apply_damage(3, 10), 0);
    assert_eq!(apply_damage(0, 7), 0);
    assert_eq!(apply_damage(0, 0), 0);
}

#[test]
fn zero_input_gives_zero_velocity_and_no_motion() {
    let v = input_velocity(false, false, false, false);
    assert_eq!(v, Vector { x: 0, y: 0 });
    let p = Point { x: 123_456, y: -789 };
    let moved = step_point(p, v, 100_000_000);
    assert_eq!(moved, p);
}

#[test]
fn input_velocity_is_unit_length_fixed_point() {
    assert_eq!(input_velocity(false, true, false, false), Vector { x: 1000, y: 0 });
    assert_eq!(input_velocity(true, false, false, false), Vector { x: -1000, y: 0 });
    assert_eq!(input_velocity(false, false, true, false), Vector { x: 0, y: -1000 });
    assert_eq!(input_velocity(false, false, false, true), Vector { x: 0, y: 1000 });
    // Diagonals are brought to unit length, not left at sqrt(2).
    assert_eq!(input_velocity(false, true, false, true), Vector { x: 707, y: 707 });
    assert_eq!(input_velocity(true, false, true, false), Vector { x: -707, y: -707 });
    // Opposite directions cancel to the zero vector.
    assert_eq!(input_velocity(true, true, false, false), Vector { x: 0, y: 0 });
}

#[test]
fn isqrt_matches_exact_squares_and_gaps() {
    assert_eq!(isqrt_u64(0), 0);
    assert_eq!(isqrt_u64(1), 1);
    assert_eq!(isqrt_u64(2), 1);
    assert_eq!(isqrt_u64(3), 1);
    assert_eq!(isqrt_u64(4), 2);
    assert_eq!(isqrt_u64(24), 4);
    assert_eq!(isqrt_u64(25), 5);
    assert_eq!(isqrt_u64(2_000_000), 1414);
    assert_eq!(isqrt_u64(4_294_967_295), 65535);
}

#[test]
fn bullet_velocity_normalises_and_scales() {
    // A 3-4-5 direction at base speed becomes exactly (600, 800).
    assert_eq!(bullet_velocity(3, 4, 1000), Vector { x: 600, y: 800 });
    assert_eq!(bullet_velocity(-3, 4, 1000), Vector { x: -600, y: 800 });
    assert_eq!(bullet_velocity(3, -4, 500), Vector { x: 300, y: -400 });
    // The degenerate zero draw falls back to straight down.
    assert_eq!(bullet_velocity(0, 0, 1500), Vector { x: 0, y: 1500 });
}

#[test]
fn ship_hitbox_formula_exact() {
    let ship = Ship::new(
        Point { x: 100_000, y: 200_000 },
        Extent { w: 64_000, h: 32_000 },
    );
    // Width scaled by 0.5, height by 0.4, y offset 0.05 of the width.
    let b = ship.hitbox();
    assert_eq!(b, Rect { x: 84_000, y: 196_800, w: 32_000, h: 12_800 });
}

#[test]
fn health_bar_scale_with_health_fraction() {
    let mut ship = Ship::new(
        Point { x: 50_000, y: 90_000 },
        Extent { w: 10_000, h: 10_000 },
    );
    ship.health = 5;
    let (bg, fg) = ship.health_bar();
    assert_eq!(bg, Rect { x: 45_000, y: 69_000, w: 64_000, h: 8_000 });
    assert_eq!(fg, Rect { x: 45_000, y: 69_000, w: 32_000, h: 8_000 });
}

#[test]
fn clamp_and_saturating_add_behave() {
    assert_eq!(clamp_i64(-5, 0, 10), 0);
    assert_eq!(clamp_i64(15, 0, 10), 10);
    assert_eq!(clamp_i64(7, 0, 10), 7);
    assert_eq!(sat_add_u64(u64::MAX - 1, 5), u64::MAX);
    assert_eq!(sat_add_u64(3, 4), 7);
}

#[test]
fn bullet_hitbox_scales_by_850_per_mille() {
    let b = game_test::bullet::Bullet::new(
        Point { x: 100_000, y: 100_000 },
        Extent { w: 10_000, h: 10_000 },
        0,
        1000,
        1000,
    );
    let r = b.hitbox();
    assert_eq!(r, Rect { x: 95_750, y: 95_750, w: 8_500, h: 8_500 });
}

#[test]
fn center_pos_is_half_an_extent_up_and_left() {
    let ship = Ship::new(
        Point { x: 100_000, y: 200_000 },
        Extent { w: 30_000, h: 20_000 },
    );
    assert_eq!(ship.center_pos(), Point { x: 85_000, y: 190_000 });
}

#[test]
fn short_direction_samples_keep_the_drawn_speed() {
    // The per-mille length of the shortest diagonal sample (0.001, 0.001)
    // is 1414, so normalisation still lands within rounding of the drawn
    // magnitude instead of inflating it by sqrt(2).
    assert_eq!(bullet_velocity(1, 1, 1500), Vector { x: 1060, y: 1060 });
    assert_eq!(bullet_velocity(1, 0, 1000), Vector { x: 1000, y: 0 });
    // The squared speed of any sample stays in [(mag-3)^2, (mag+2)^2].
    let v = bullet_velocity(7, -3, 1999);
    let norm2 = v.x * v.x + v.y * v.y;
    assert!((1999 - 3) * (1999 - 3) <= norm2);
    assert!(norm2 <= (1999 + 2) * (1999 + 2));
}
