//! The systems that run on every tick of play, each on the whole game: the
//! controls, the animation, and the camera that follows the ship.

use vstd::prelude::*;
use crate::camera::{follow, in_world, spec_followed, within_world, CameraState};
use crate::input::{BrakePolicy, Key};
use crate::resolver::Heading;
use crate::ship::{spec_apply_controls, Ship};
use crate::units::Vec2;
use crate::world::{exactly_one, index_of, sole, Entity, EntityKind, Game, GameState};

verus! {

/// `e` after the controls of one tick: a ship is steered, anything else is
/// left as it is.
pub open spec fn steered(e: Entity, keys: Seq<Key>, policy: BrakePolicy, heading: Heading)
    -> Entity {
    match e {
        Entity::Ship(ship) => Entity::Ship(spec_apply_controls(ship, keys, policy, heading)),
        other => other,
    }
}

/// `e` one animation tick later: a ship shows its next frame, anything else
/// is left as it is.
pub open spec fn animated(e: Entity) -> Entity {
    match e {
        Entity::Ship(ship) => Entity::Ship(
            Ship { animation: ship.animation.spec_advance(), ..ship },
        ),
        other => other,
    }
}

/// `e` after the physics step has reported `position`: a ship stands there,
/// anything else is left as it is.
pub open spec fn placed(e: Entity, position: Vec2) -> Entity {
    match e {
        Entity::Ship(ship) => Entity::Ship(Ship { position, ..ship }),
        other => other,
    }
}

/// The only ship among `entities`.
pub open spec fn ship_of(entities: Seq<Entity>) -> Ship {
    entities[index_of(entities, EntityKind::Ship)]->Ship_0
}

/// The only world camera among `entities`.
pub open spec fn camera_of(entities: Seq<Entity>) -> CameraState {
    entities[index_of(entities, EntityKind::Camera)]->Camera_0
}

/// What the camera system needs during play: one ship and one world camera,
/// both within the world's limits.
pub open spec fn can_follow(entities: Seq<Entity>) -> bool {
    &&& exactly_one(entities, EntityKind::Ship)
    &&& exactly_one(entities, EntityKind::Camera)
    &&& in_world(ship_of(entities).position)
    &&& in_world(camera_of(entities).position)
}

fn replace_ship(game: &mut Game, index: usize, ship: Ship)
    requires
        sole(old(game).entities@, EntityKind::Ship, index as int),
    ensures
        final(game).entities@ == old(game).entities@.update(index as int, Entity::Ship(ship)),
        final(game).score == old(game).score,
        final(game).state == old(game).state,
        sole(final(game).entities@, EntityKind::Ship, index as int),
        forall|j: int|
            0 <= j < old(game).entities@.len() ==> final(game).entities@[j].spec_kind() == old(
                game,
            ).entities@[j].spec_kind(),
        old(game).wf() ==> final(game).wf(),
{
    game.entities.set(index, Entity::Ship(ship));
    proof {
        let before = old(game).entities@;
        let after = game.entities@;
        assert forall|j: int| 0 <= j < before.len() implies after[j].spec_kind()
            == before[j].spec_kind() by {}
        assert(sole(after, EntityKind::Ship, index as int));
        if old(game).wf() {
            match game.state {
                GameState::Playing => {
                    let k = index_of(before, EntityKind::Scoreboard);
                    assert(sole(before, EntityKind::Scoreboard, k));
                    assert(sole(after, EntityKind::Scoreboard, k));
                    assert(exactly_one(after, EntityKind::Ship));
                    assert(exactly_one(after, EntityKind::Scoreboard));
                },
                GameState::GameOver => {
                    assert(before[index as int].spec_is_camera());
                },
            }
        }
    }
}

/// Applies the controls of one tick to the ship.
///
/// The keys decide the engine mode, the brake, the torque and the
/// acceleration, which is resolved along `heading` into the force on the
/// body. Nothing but the ship changes.
pub fn move_player(game: &mut Game, keys: &Vec<Key>, policy: BrakePolicy, heading: Heading)
    requires
        heading.wf(),
        exactly_one(old(game).entities@, EntityKind::Ship),
    ensures
        final(game).entities@ == old(game).entities@.map_values(
            |e: Entity| steered(e, keys@, policy, heading),
        ),
        final(game).score == old(game).score,
        final(game).state == old(game).state,
        exactly_one(final(game).entities@, EntityKind::Ship),
        old(game).wf() ==> final(game).wf(),
{
    let found: Option<usize> = game.find_single(EntityKind::Ship);
    if let Some(index) = found {
        if let Entity::Ship(ship) = game.entities[index] {
            let mut ship: Ship = ship;
            ship.apply_controls(keys, policy, heading);
            replace_ship(game, index, ship);
        }
    }
    assert(game.entities@ =~= old(game).entities@.map_values(
        |e: Entity| steered(e, keys@, policy, heading),
    ));
}

/// Advances the ship's animation by one tick. Nothing but the ship's frame
/// changes.
pub fn spaceship_animation(game: &mut Game)
    requires
        exactly_one(old(game).entities@, EntityKind::Ship),
    ensures
        final(game).entities@ == old(game).entities@.map_values(|e: Entity| animated(e)),
        final(game).score == old(game).score,
        final(game).state == old(game).state,
        exactly_one(final(game).entities@, EntityKind::Ship),
        old(game).wf() ==> final(game).wf(),
{
    let found: Option<usize> = game.find_single(EntityKind::Ship);
    if let Some(index) = found {
        if let Entity::Ship(ship) = game.entities[index] {
            let mut ship: Ship = ship;
            ship.animation.advance();
            replace_ship(game, index, ship);
        }
    }
    assert(game.entities@ =~= old(game).entities@.map_values(|e: Entity| animated(e)));
}

/// Records where the physics step has put the ship. Nothing but the ship's
/// position changes.
pub fn track_ship(game: &mut Game, position: Vec2)
    requires
        exactly_one(old(game).entities@, EntityKind::Ship),
    ensures
        final(game).entities@ == old(game).entities@.map_values(|e: Entity| placed(e, position)),
        final(game).score == old(game).score,
        final(game).state == old(game).state,
        exactly_one(final(game).entities@, EntityKind::Ship),
        old(game).wf() ==> final(game).wf(),
{
    let found: Option<usize> = game.find_single(EntityKind::Ship);
    if let Some(index) = found {
        if let Entity::Ship(ship) = game.entities[index] {
            let mut ship: Ship = ship;
            ship.position = position;
            replace_ship(game, index, ship);
        }
    }
    assert(game.entities@ =~= old(game).entities@.map_values(|e: Entity| placed(e, position)));
}

/// Tells whether the camera system can run: whether there is one ship and one
/// world camera, both within the world's limits.
pub fn ready_to_follow(game: &Game) -> (ready: bool)
    ensures
        ready == can_follow(game.entities@),
{
    let ship_at: Option<usize> = game.find_single(EntityKind::Ship);
    let camera_at: Option<usize> = game.find_single(EntityKind::Camera);
    if let Some(s) = ship_at {
        if let Some(c) = camera_at {
            if let Entity::Ship(ship) = game.entities[s] {
                if let Entity::Camera(camera) = game.entities[c] {
                    return within_world(ship.position) && within_world(camera.position);
                }
            }
        }
    }
    false
}

/// Eases the world camera toward the ship after `dt_micros` millionths of a
/// second.
///
/// The camera moves during play only: once the game is over nothing changes.
/// During play nothing but the world camera changes.
pub fn follow_camera(game: &mut Game, dt_micros: u32)
    requires
        old(game).state == GameState::Playing ==> can_follow(old(game).entities@),
    ensures
        old(game).state == GameState::GameOver ==> *final(game) == *old(game),
        old(game).state == GameState::Playing ==> final(game).entities@ == old(
            game,
        ).entities@.update(
            index_of(old(game).entities@, EntityKind::Camera),
            Entity::Camera(
                CameraState {
                    position: spec_followed(
                        camera_of(old(game).entities@).position,
                        ship_of(old(game).entities@).position,
                        dt_micros as int,
                    ),
                },
            ),
        ),
        final(game).score == old(game).score,
        final(game).state == old(game).state,
        old(game).wf() ==> final(game).wf(),
{
    if game.state == GameState::GameOver {
        return ;
    }
    let ship_at: Option<usize> = game.find_single(EntityKind::Ship);
    let camera_at: Option<usize> = game.find_single(EntityKind::Camera);
    if let Some(s) = ship_at {
        if let Some(c) = camera_at {
            if let Entity::Ship(ship) = game.entities[s] {
                if let Entity::Camera(camera) = game.entities[c] {
                    let moved: Vec2 = follow(camera.position, ship.position, dt_micros);
                    game.entities.set(c, Entity::Camera(CameraState { position: moved }));
                    proof {
                        let before = old(game).entities@;
                        let after = game.entities@;
                        assert forall|j: int| 0 <= j < before.len() implies after[j].spec_kind()
                            == before[j].spec_kind() by {}
                        if old(game).wf() {
                            let k = index_of(before, EntityKind::Scoreboard);
                            assert(sole(before, EntityKind::Scoreboard, k));
                            assert(sole(after, EntityKind::Scoreboard, k));
                            assert(sole(before, EntityKind::Ship, s as int));
                            assert(sole(after, EntityKind::Ship, s as int));
                        }
                    }
                }
            }
        }
    }
}

} // verus!
