use spaceship_control::animation::{
    next_frame, SpaceShipAnimation, SpaceShipMode, FLAME_FIRST, FLAME_LAST, SHEET_LENGTH,
    STANDBY_FRAME,
};

#[test]
fn sustained_thrust_climbs_then_cycles() {
    let mut anim = SpaceShipAnimation::new();
    anim.mode = SpaceShipMode::ThrustingForward;
    let mut seen: Vec<u32> = Vec::new();
    for _ in 0..10 {
        seen.push(anim.index);
        anim.advance();
    }
    assert_eq!(seen, vec![1, 2, 3, 4, 5, 6, 7, 5, 6, 7]);
    assert_eq!(anim.index, 5);
    assert_eq!(anim.mode, SpaceShipMode::ThrustingForward);
}

#[test]
fn wrap_around_is_exact() {
    assert_eq!(next_frame(SpaceShipMode::ThrustingForward, 6), 7);
    assert_eq!(next_frame(SpaceShipMode::ThrustingForward, 7), 5);
    assert_eq!(next_frame(SpaceShipMode::ThrustingForward, 5), 6);
    assert_eq!(next_frame(SpaceShipMode::ThrustingForward, 4), 5);
}

#[test]
fn standby_resets_from_any_frame() {
    for index in 0..32u32 {
        assert_eq!(next_frame(SpaceShipMode::Standby, index), 1);
    }
    assert_eq!(next_frame(SpaceShipMode::Standby, u32::MAX), STANDBY_FRAME);
}

#[test]
fn standby_interrupts_the_flame_loop() {
    let mut anim = SpaceShipAnimation { index: 6, mode: SpaceShipMode::Standby };
    anim.advance();
    assert_eq!(anim, SpaceShipAnimation { index: 1, mode: SpaceShipMode::Standby });
    anim.mode = SpaceShipMode::ThrustingForward;
    anim.advance();
    assert_eq!(anim.index, 2);
}

#[test]
fn flame_loop_never_returns_to_the_climb() {
    let mut index = FLAME_FIRST;
    for _ in 0..100 {
        index = next_frame(SpaceShipMode::ThrustingForward, index);
        assert!(FLAME_FIRST <= index && index <= FLAME_LAST);
    }
}

#[test]
fn frames_stay_on_the_sheet() {
    for index in [0u32, 1, 4, 5, 7, 8, 9, 1000, u32::MAX] {
        assert!(next_frame(SpaceShipMode::ThrustingForward, index) < SHEET_LENGTH);
        assert!(next_frame(SpaceShipMode::Standby, index) < SHEET_LENGTH);
    }
    assert_eq!(next_frame(SpaceShipMode::ThrustingForward, u32::MAX), 5);
    assert_eq!(next_frame(SpaceShipMode::ThrustingForward, 0), 1);
}

#[test]
fn new_animation_idles() {
    let anim = SpaceShipAnimation::new();
    assert_eq!(anim.index, 1);
    assert_eq!(anim.mode, SpaceShipMode::Standby);
}
