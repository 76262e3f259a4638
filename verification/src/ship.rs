//! The controlled body: the ship as the physics step and the renderer see it.

use vstd::prelude::*;
use crate::animation::{SpaceShipAnimation, SpaceShipMode, STANDBY_FRAME};
use crate::input::{BrakePolicy, Key, BRAKE_INTENSITY, spec_thrust_mode, spec_translate, thrust_mode,
    translate, ControlIntent};
use crate::resolver::{resolve, spec_resolve, ForceCommand, Heading};
use crate::units::Vec2;

verus! {

/// Linear and angular velocity of a body, in thousandths.
#[derive(Clone, Copy, Debug, PartialEq, Eq, Structural)]
pub struct Velocity {
    pub linvel: Vec2,
    pub angvel: i64,
}

/// Damping coefficients of a body, in thousandths.
#[derive(Clone, Copy, Debug, PartialEq, Eq, Structural)]
pub struct Damping {
    pub linear_damping: i64,
    pub angular_damping: i64,
}

/// Mass properties of a body, in thousandths.
#[derive(Clone, Copy, Debug, PartialEq, Eq, Structural)]
pub struct MassProperties {
    pub local_center_of_mass: Vec2,
    pub mass: i64,
    pub principal_inertia: i64,
}

/// The ship. The controls write its force, torque, linear damping and
/// animation; the physics step owns the rest.
#[derive(Clone, Copy, Debug, PartialEq, Eq, Structural)]
pub struct Ship {
    pub position: Vec2,
    pub velocity: Velocity,
    pub external_force: ForceCommand,
    pub damping: Damping,
    pub mass_properties: MassProperties,
    /// Radius of the ball collider, in thousandths.
    pub collider_radius: i64,
    /// Share of gravity that acts on the body, in thousandths.
    pub gravity_scale: i64,
    pub animation: SpaceShipAnimation,
}

/// The ship as it enters play: at rest at (20, 20), no force, torque or
/// damping on it, mass 100 centred at (10, 0), inertia 1, a collider of
/// radius 50, untouched by gravity, engine on standby.
pub open spec fn spawned_ship() -> Ship {
    Ship {
        position: Vec2 { x: 20_000, y: 20_000 },
        velocity: Velocity { linvel: Vec2 { x: 0, y: 0 }, angvel: 0 },
        external_force: ForceCommand { linear_force: Vec2 { x: 0, y: 0 }, torque: 0 },
        damping: Damping { linear_damping: 0, angular_damping: 0 },
        mass_properties: MassProperties {
            local_center_of_mass: Vec2 { x: 10_000, y: 0 },
            mass: 100_000,
            principal_inertia: 1_000,
        },
        collider_radius: 50_000,
        gravity_scale: 0,
        animation: SpaceShipAnimation { index: STANDBY_FRAME, mode: SpaceShipMode::Standby },
    }
}

/// The ship after the controls of one tick have been applied.
///
/// The engine mode follows the forward key. The brake, when engaged, sets the
/// linear damping, which then stays set. The torque is the turn of the intent
/// and the force is its acceleration resolved along `heading`.
pub open spec fn spec_apply_controls(
    ship: Ship,
    keys: Seq<Key>,
    policy: BrakePolicy,
    heading: Heading,
) -> Ship {
    let intent = spec_translate(keys, policy);
    Ship {
        external_force: spec_resolve(heading, intent.forward_accel, intent.turn),
        damping: Damping {
            linear_damping: if intent.brake {
                BRAKE_INTENSITY
            } else {
                ship.damping.linear_damping
            },
            angular_damping: ship.damping.angular_damping,
        },
        animation: SpaceShipAnimation {
            index: ship.animation.index,
            mode: spec_thrust_mode(keys),
        },
        ..ship
    }
}

impl Ship {
    /// Builds the ship as it enters play.
    pub fn spawn() -> (ship: Ship)
        ensures
            ship == spawned_ship(),
    {
        Ship {
            position: Vec2 { x: 20_000, y: 20_000 },
            velocity: Velocity { linvel: Vec2 { x: 0, y: 0 }, angvel: 0 },
            external_force: ForceCommand { linear_force: Vec2 { x: 0, y: 0 }, torque: 0 },
            damping: Damping { linear_damping: 0, angular_damping: 0 },
            mass_properties: MassProperties {
                local_center_of_mass: Vec2 { x: 10_000, y: 0 },
                mass: 100_000,
                principal_inertia: 1_000,
            },
            collider_radius: 50_000,
            gravity_scale: 0,
            animation: SpaceShipAnimation::new(),
        }
    }

    /// Applies the controls of one tick to the ship.
    pub fn apply_controls(&mut self, keys: &Vec<Key>, policy: BrakePolicy, heading: Heading)
        requires
            heading.wf(),
        ensures
            *final(self) == spec_apply_controls(*old(self), keys@, policy, heading),
    {
        let intent: ControlIntent = translate(keys, policy);
        self.animation.mode = thrust_mode(keys);
        if intent.brake {
            self.damping.linear_damping = BRAKE_INTENSITY;
        }
        self.external_force = resolve(heading, intent.forward_accel, intent.turn);
    }
}

} // verus!
