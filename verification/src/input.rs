//! The controls: from the keys that are pressed to the intent of one tick.

use vstd::prelude::*;
use crate::animation::SpaceShipMode;

verus! {

/// Forward thrust, in thousandths of a force unit.
pub const SPEED: i64 = 50_000;

/// Torque of one turning key, in thousandths.
pub const TURNING_SPEED: i64 = 75;

/// Strength of the brake, in thousandths: a damping coefficient under
/// [`BrakePolicy::Damping`], a force under [`BrakePolicy::Force`].
pub const BRAKE_INTENSITY: i64 = 600;

/// A key as the controls see it. Keys that steer nothing arrive as `Other`.
#[derive(Clone, Copy, Debug, PartialEq, Eq, Structural)]
pub enum Key {
    Forward,
    Backward,
    Left,
    Right,
    Restart,
    Other,
}

/// What the backward key does.
#[derive(Clone, Copy, Debug, PartialEq, Eq, Structural)]
pub enum BrakePolicy {
    /// The key raises the body's linear damping to [`BRAKE_INTENSITY`] and
    /// leaves the acceleration alone.
    Damping,
    /// The key adds [`BRAKE_INTENSITY`] to the acceleration and leaves the
    /// damping alone.
    Force,
}

/// The intent of one tick, rebuilt from the keys on every tick.
#[derive(Clone, Copy, Debug, PartialEq, Eq, Structural)]
pub struct ControlIntent {
    /// Signed acceleration along the heading, in thousandths. Forward thrust
    /// is negative.
    pub forward_accel: i64,
    /// Whether the damping brake is engaged.
    pub brake: bool,
    /// Torque, in thousandths. Left is positive.
    pub turn: i64,
}

/// The intent that a set of pressed keys stands for.
pub open spec fn spec_translate(keys: Seq<Key>, policy: BrakePolicy) -> ControlIntent {
    let thrust: int = if keys.contains(Key::Forward) {
        -SPEED
    } else {
        0
    };
    let brake_force: int = if keys.contains(Key::Backward) && policy == BrakePolicy::Force {
        BRAKE_INTENSITY as int
    } else {
        0
    };
    let left: int = if keys.contains(Key::Left) {
        TURNING_SPEED as int
    } else {
        0
    };
    let right: int = if keys.contains(Key::Right) {
        TURNING_SPEED as int
    } else {
        0
    };
    ControlIntent {
        forward_accel: (thrust + brake_force) as i64,
        brake: keys.contains(Key::Backward) && policy == BrakePolicy::Damping,
        turn: (left - right) as i64,
    }
}

/// The engine mode that a set of pressed keys stands for.
pub open spec fn spec_thrust_mode(keys: Seq<Key>) -> SpaceShipMode {
    if keys.contains(Key::Forward) {
        SpaceShipMode::ThrustingForward
    } else {
        SpaceShipMode::Standby
    }
}

/// Whether `key` is among the pressed keys.
pub fn pressed(keys: &Vec<Key>, key: Key) -> (found: bool)
    ensures
        found == keys@.contains(key),
{
    let mut i: usize = 0;
    while i < keys.len()
        invariant
            i <= keys.len(),
            forall|j: int| 0 <= j < i ==> keys@[j] != key,
        decreases keys.len() - i,
    {
        if keys[i] == key {
            return true;
        }
        i += 1;
    }
    false
}

/// Builds the intent of this tick from the pressed keys.
///
/// Keys may come in any order and more than once; keys that steer nothing are
/// ignored. No combination of keys is an error.
pub fn translate(keys: &Vec<Key>, policy: BrakePolicy) -> (intent: ControlIntent)
    ensures
        intent == spec_translate(keys@, policy),
{
    let mut forward_accel: i64 = 0;
    let mut brake: bool = false;
    let mut turn: i64 = 0;
    if pressed(keys, Key::Forward) {
        forward_accel -= SPEED;
    }
    if pressed(keys, Key::Backward) {
        match policy {
            BrakePolicy::Damping => {
                brake = true;
            },
            BrakePolicy::Force => {
                forward_accel += BRAKE_INTENSITY;
            },
        }
    }
    if pressed(keys, Key::Right) {
        turn -= TURNING_SPEED;
    }
    if pressed(keys, Key::Left) {
        turn += TURNING_SPEED;
    }
    ControlIntent { forward_accel, brake, turn }
}

/// Decides the engine mode of this tick from the pressed keys.
pub fn thrust_mode(keys: &Vec<Key>) -> (mode: SpaceShipMode)
    ensures
        mode == spec_thrust_mode(keys@),
{
    if pressed(keys, Key::Forward) {
        SpaceShipMode::ThrustingForward
    } else {
        SpaceShipMode::Standby
    }
}

/// The intent depends only on which keys are pressed, not on their order or
/// on how often one is listed.
pub proof fn lemma_translate_reads_the_key_set(a: Seq<Key>, b: Seq<Key>, policy: BrakePolicy)
    requires
        forall|k: Key| a.contains(k) <==> b.contains(k),
    ensures
        spec_translate(a, policy) == spec_translate(b, policy),
        spec_thrust_mode(a) == spec_thrust_mode(b),
{
}

/// With no turning key, or with both, the ship does not turn.
pub proof fn lemma_opposed_turns_cancel(keys: Seq<Key>, policy: BrakePolicy)
    requires
        keys.contains(Key::Left) == keys.contains(Key::Right),
    ensures
        spec_translate(keys, policy).turn == 0,
{
}

/// A key that steers nothing changes nothing.
pub proof fn lemma_other_keys_are_ignored(keys: Seq<Key>, policy: BrakePolicy)
    ensures
        spec_translate(keys.push(Key::Other), policy) == spec_translate(keys, policy),
        spec_thrust_mode(keys.push(Key::Other)) == spec_thrust_mode(keys),
{
    let more = keys.push(Key::Other);
    assert forall|k: Key| k != Key::Other implies (more.contains(k) <==> keys.contains(k)) by {
        if keys.contains(k) {
            let i = choose|i: int| 0 <= i < keys.len() && keys[i] == k;
            assert(more[i] == k);
        }
        if more.contains(k) {
            let i = choose|i: int| 0 <= i < more.len() && more[i] == k;
            assert(keys[i] == k);
        }
    }
}

} // verus!
