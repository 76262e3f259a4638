use spaceship_control::resolver::{
    normalize_degrees, resolve, scale, ForceCommand, Heading, FULL_TURN, HEADING_ONE,
};
use spaceship_control::units::Vec2;

fn heading(cos: i64, sin: i64) -> Heading {
    Heading::new(cos, sin).unwrap()
}

#[test]
fn negative_angle_resolves_like_its_shift() {
    assert_eq!(normalize_degrees(-90_000), 270_000);
    assert_eq!(normalize_degrees(-90_000), normalize_degrees(-90_000 + FULL_TURN));
    assert_eq!(normalize_degrees(-1), 359_999);
    assert_eq!(normalize_degrees(-1), normalize_degrees(359_999));
    assert_eq!(normalize_degrees(-360_000), 0);
    assert_eq!(normalize_degrees(-180_000), 180_000);
}

#[test]
fn angles_in_range_are_kept() {
    assert_eq!(normalize_degrees(0), 0);
    assert_eq!(normalize_degrees(45_000), 45_000);
    assert_eq!(normalize_degrees(359_999), 359_999);
}

#[test]
fn only_one_turn_is_added() {
    assert_eq!(normalize_degrees(-400_000), -40_000);
    assert_eq!(normalize_degrees(400_000), 400_000);
}

#[test]
fn force_along_the_axes_is_exact() {
    let east = resolve(heading(HEADING_ONE, 0), -50_000, 75);
    assert_eq!(east, ForceCommand { linear_force: Vec2 { x: -50_000, y: 0 }, torque: 75 });
    let north = resolve(heading(0, HEADING_ONE), -50_000, -75);
    assert_eq!(north, ForceCommand { linear_force: Vec2 { x: 0, y: -50_000 }, torque: -75 });
    let west = resolve(heading(-HEADING_ONE, 0), -50_000, 0);
    assert_eq!(west.linear_force, Vec2 { x: 50_000, y: 0 });
    let south = resolve(heading(0, -HEADING_ONE), 600, 0);
    assert_eq!(south.linear_force, Vec2 { x: 0, y: -600 });
}

#[test]
fn force_along_a_slanted_heading() {
    let command = resolve(heading(500_000, 866_025), -50_000, 0);
    assert_eq!(command.linear_force, Vec2 { x: -25_000, y: -43_301 });
    let command = resolve(heading(-707_107, 707_107), 50_000, 0);
    assert_eq!(command.linear_force, Vec2 { x: -35_355, y: 35_355 });
}

#[test]
fn force_is_as_long_as_the_acceleration() {
    let headings = [(1_000_000, 0), (600_000, 800_000), (-280_000, 960_000), (0, -1_000_000)];
    for (cos, sin) in headings {
        for accel in [-50_000i64, -49_400, 600, 1, 123_457] {
            let f = resolve(heading(cos, sin), accel, 0).linear_force;
            let length_sq = (f.x as i128) * (f.x as i128) + (f.y as i128) * (f.y as i128);
            let upper = (f.x.abs() as i128 + 1) * (f.x.abs() as i128 + 1)
                + (f.y.abs() as i128 + 1) * (f.y.abs() as i128 + 1);
            let accel_sq = (accel as i128) * (accel as i128);
            assert!(length_sq <= accel_sq);
            assert!(accel_sq < upper);
        }
    }
}

#[test]
fn zero_acceleration_gives_zero_force() {
    let command = resolve(heading(707_107, -707_107), 0, 75);
    assert_eq!(command, ForceCommand { linear_force: Vec2 { x: 0, y: 0 }, torque: 75 });
}

#[test]
fn torque_is_the_turn() {
    for turn in [-75i64, 0, 75, 1_000_000] {
        assert_eq!(resolve(heading(0, HEADING_ONE), -50_000, turn).torque, turn);
    }
}

#[test]
fn scale_rounds_toward_zero() {
    assert_eq!(scale(3, 500_000), 1);
    assert_eq!(scale(-3, 500_000), -1);
    assert_eq!(scale(3, -500_000), -1);
    assert_eq!(scale(-3, -500_000), 1);
    assert_eq!(scale(1, 999_999), 0);
    assert_eq!(scale(i64::MAX, HEADING_ONE), i64::MAX);
    assert_eq!(scale(-i64::MAX, -HEADING_ONE), i64::MAX);
}

#[test]
fn heading_components_are_bounded() {
    assert_eq!(Heading::new(0, 0), Some(Heading { cos: 0, sin: 0 }));
    assert_eq!(Heading::new(1_000_000, -1_000_000), Some(Heading { cos: 1_000_000, sin: -1_000_000 }));
    assert_eq!(Heading::new(1_000_001, 0), None);
    assert_eq!(Heading::new(0, -1_000_001), None);
    assert_eq!(Heading::new(i64::MIN, i64::MAX), None);
}
