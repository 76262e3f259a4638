use spaceship_control::camera::{follow, isqrt, within_world, CameraState, WORLD_LIMIT};
use spaceship_control::units::Vec2;

fn at(x: i64, y: i64) -> Vec2 {
    Vec2::new(x, y)
}

#[test]
fn camera_rests_inside_the_dead_zone() {
    let camera = at(10_000, -5_000);
    for target in [at(10_000, -5_000), at(40_000, 35_000), at(60_000, -5_000), at(10_000, -55_000)] {
        for dt in [1u32, 16_667, 1_000_000, u32::MAX] {
            assert_eq!(follow(camera, target, dt), camera);
        }
    }
}

#[test]
fn dead_zone_edge_is_inside() {
    assert_eq!(follow(at(0, 0), at(30_000, 40_000), 1_000_000), at(0, 0));
    assert_eq!(follow(at(0, 0), at(50_000, 0), 4_000_000_000), at(0, 0));
}

#[test]
fn camera_closes_the_gap_at_full_gain() {
    assert_eq!(follow(at(0, 0), at(150_000, 0), 1_000_000), at(150_000, 0));
    assert_eq!(follow(at(0, 0), at(-150_000, 0), 1_000_000), at(-150_000, 0));
    assert_eq!(follow(at(0, 0), at(90_000, 120_000), 1_000_000), at(90_000, 120_000));
    assert_eq!(follow(at(7_000, 7_000), at(7_000, -143_000), 1_000_000), at(7_000, -143_000));
}

#[test]
fn step_scales_with_time_and_distance() {
    assert_eq!(follow(at(0, 0), at(150_000, 0), 500_000), at(75_000, 0));
    assert_eq!(follow(at(0, 0), at(250_000, 0), 500_000), at(250_000, 0));
    assert_eq!(follow(at(0, 0), at(250_000, 0), 1_000_000), at(500_000, 0));
    assert_eq!(follow(at(0, 0), at(100_000, 0), 1_000_000), at(50_000, 0));
    assert_eq!(follow(at(0, 0), at(0, 100_000), 16_667), at(0, 833));
    assert_eq!(follow(at(0, 0), at(0, -100_000), 16_667), at(0, -833));
}

#[test]
fn distance_is_rounded_down() {
    // The gap (60, 60) is 84.852... units long.
    assert_eq!(follow(at(0, 0), at(60_000, 60_000), 1_000_000), at(20_911, 20_911));
}

#[test]
fn no_time_no_motion() {
    assert_eq!(follow(at(0, 0), at(900_000, -900_000), 0), at(0, 0));
}

#[test]
fn tiny_steps_round_to_nothing() {
    assert_eq!(follow(at(0, 0), at(50_001, 0), 1_000_000), at(0, 0));
}

#[test]
fn follower_works_at_the_limits_of_the_world() {
    let moved = follow(
        at(-WORLD_LIMIT, -WORLD_LIMIT),
        at(WORLD_LIMIT, WORLD_LIMIT),
        u32::MAX,
    );
    // distance = floor(sqrt(2) * 2^31) = 3_037_000_499
    let gain: i128 = (3_037_000_499i128 - 50_000) * (u32::MAX as i128);
    let step = (2_147_483_648i128 * gain / 100_000_000_000) as i64;
    assert_eq!(moved, at(-WORLD_LIMIT + step, -WORLD_LIMIT + step));
}

#[test]
fn camera_state_follows() {
    let mut camera = CameraState::new(at(0, 0));
    camera.follow(at(150_000, 0), 1_000_000);
    assert_eq!(camera.position, at(150_000, 0));
    camera.follow(at(160_000, 0), 1_000_000);
    assert_eq!(camera.position, at(150_000, 0));
}

#[test]
fn integer_square_roots() {
    assert_eq!(isqrt(0), 0);
    assert_eq!(isqrt(1), 1);
    assert_eq!(isqrt(2), 1);
    assert_eq!(isqrt(3), 1);
    assert_eq!(isqrt(4), 2);
    assert_eq!(isqrt(15), 3);
    assert_eq!(isqrt(16), 4);
    assert_eq!(isqrt(17), 4);
    assert_eq!(isqrt(2_500_000_000), 50_000);
    assert_eq!(isqrt(2_499_999_999), 49_999);
    assert_eq!(isqrt(1 << 62), 1 << 31);
    assert_eq!(isqrt(u64::MAX), 4_294_967_295);
}

#[test]
fn world_limits() {
    assert!(within_world(at(0, 0)));
    assert!(within_world(at(WORLD_LIMIT, -WORLD_LIMIT)));
    assert!(!within_world(at(WORLD_LIMIT + 1, 0)));
    assert!(!within_world(at(0, -WORLD_LIMIT - 1)));
}
