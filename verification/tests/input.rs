use spaceship_control::animation::SpaceShipMode;
use spaceship_control::input::{
    pressed, thrust_mode, translate, BrakePolicy, ControlIntent, Key, BRAKE_INTENSITY, SPEED,
    TURNING_SPEED,
};

#[test]
fn constants_are_in_thousandths() {
    assert_eq!(SPEED, 50_000);
    assert_eq!(TURNING_SPEED, 75);
    assert_eq!(BRAKE_INTENSITY, 600);
}

#[test]
fn no_key_no_intent() {
    let intent = translate(&Vec::new(), BrakePolicy::Damping);
    assert_eq!(intent, ControlIntent { forward_accel: 0, brake: false, turn: 0 });
    assert_eq!(translate(&Vec::new(), BrakePolicy::Force), intent);
}

#[test]
fn forward_key_thrusts() {
    let intent = translate(&vec![Key::Forward], BrakePolicy::Damping);
    assert_eq!(intent, ControlIntent { forward_accel: -50_000, brake: false, turn: 0 });
}

#[test]
fn turning_keys_add_up() {
    let left = translate(&vec![Key::Left], BrakePolicy::Damping);
    assert_eq!(left.turn, 75);
    let right = translate(&vec![Key::Right], BrakePolicy::Damping);
    assert_eq!(right.turn, -75);
    let both = translate(&vec![Key::Right, Key::Left], BrakePolicy::Damping);
    assert_eq!(both.turn, 0);
}

#[test]
fn damping_policy_engages_the_brake() {
    let intent = translate(&vec![Key::Backward], BrakePolicy::Damping);
    assert_eq!(intent, ControlIntent { forward_accel: 0, brake: true, turn: 0 });
    let with_thrust = translate(&vec![Key::Backward, Key::Forward], BrakePolicy::Damping);
    assert_eq!(with_thrust, ControlIntent { forward_accel: -50_000, brake: true, turn: 0 });
}

#[test]
fn force_policy_adds_to_the_acceleration() {
    let intent = translate(&vec![Key::Backward], BrakePolicy::Force);
    assert_eq!(intent, ControlIntent { forward_accel: 600, brake: false, turn: 0 });
    let with_thrust = translate(&vec![Key::Forward, Key::Backward], BrakePolicy::Force);
    assert_eq!(with_thrust, ControlIntent { forward_accel: -49_400, brake: false, turn: 0 });
}

#[test]
fn other_keys_are_ignored() {
    let keys = vec![Key::Other, Key::Restart, Key::Other];
    assert_eq!(
        translate(&keys, BrakePolicy::Damping),
        ControlIntent { forward_accel: 0, brake: false, turn: 0 }
    );
    assert_eq!(thrust_mode(&keys), SpaceShipMode::Standby);
}

#[test]
fn order_and_repeats_do_not_matter() {
    let a = vec![Key::Forward, Key::Left, Key::Backward];
    let b = vec![Key::Backward, Key::Backward, Key::Left, Key::Other, Key::Forward, Key::Left];
    for policy in [BrakePolicy::Damping, BrakePolicy::Force] {
        assert_eq!(translate(&a, policy), translate(&b, policy));
    }
    assert_eq!(thrust_mode(&a), thrust_mode(&b));
}

#[test]
fn all_keys_at_once() {
    let keys = vec![Key::Forward, Key::Backward, Key::Left, Key::Right, Key::Restart, Key::Other];
    assert_eq!(
        translate(&keys, BrakePolicy::Damping),
        ControlIntent { forward_accel: -50_000, brake: true, turn: 0 }
    );
    assert_eq!(
        translate(&keys, BrakePolicy::Force),
        ControlIntent { forward_accel: -49_400, brake: false, turn: 0 }
    );
}

#[test]
fn forward_key_sets_the_engine_mode() {
    assert_eq!(thrust_mode(&vec![Key::Left, Key::Forward]), SpaceShipMode::ThrustingForward);
    assert_eq!(thrust_mode(&vec![Key::Left, Key::Backward]), SpaceShipMode::Standby);
    assert_eq!(thrust_mode(&Vec::new()), SpaceShipMode::Standby);
}

#[test]
fn pressed_finds_a_key() {
    let keys = vec![Key::Left, Key::Restart];
    assert!(pressed(&keys, Key::Left));
    assert!(pressed(&keys, Key::Restart));
    assert!(!pressed(&keys, Key::Right));
    assert!(!pressed(&Vec::new(), Key::Other));
}
