//! The supervisor of the two phases: what is spawned when play begins, what
//! is swept away when a phase ends, and how a finished game starts again.

use vstd::prelude::*;
use crate::camera::CameraState;
use crate::input::{pressed, Key};
use crate::ship::{spawned_ship, Ship};
use crate::units::Vec2;
use crate::world::{all_cameras, exactly_one, none_of, sole, Entity, EntityKind, Game, GameState};

verus! {

/// Why a change of phase was refused.
#[derive(Clone, Copy, Debug, PartialEq, Eq, Structural)]
pub enum StateError {
    /// The game is in that phase already.
    AlreadyInState,
}

/// The cameras among `entities`, in their order.
pub open spec fn cameras_of(entities: Seq<Entity>) -> Seq<Entity> {
    entities.filter(|e: Entity| e.spec_is_camera())
}

/// The two cameras that exist from start-up on: the world camera at the
/// origin and the interface camera.
pub open spec fn camera_entities() -> Seq<Entity> {
    seq![Entity::Camera(CameraState { position: Vec2 { x: 0, y: 0 } }), Entity::UiCamera]
}

/// What entering play spawns: the light, the ship and the scoreboard.
pub open spec fn playing_entities() -> Seq<Entity> {
    seq![Entity::Light, Entity::Ship(spawned_ship()), Entity::Scoreboard]
}

/// The entities after `next` has been entered with `entities` alive.
pub open spec fn entered(next: GameState, entities: Seq<Entity>) -> Seq<Entity> {
    match next {
        GameState::Playing => entities + playing_entities(),
        GameState::GameOver => entities,
    }
}

/// The score after `next` has been entered: play starts from zero.
pub open spec fn entered_score(next: GameState, score: i32) -> i32 {
    match next {
        GameState::Playing => 0,
        GameState::GameOver => score,
    }
}

/// The sweep leaves cameras only, and no more entities than there were.
pub proof fn lemma_sweep_leaves_cameras(entities: Seq<Entity>)
    ensures
        all_cameras(cameras_of(entities)),
        cameras_of(entities).len() <= entities.len(),
    decreases entities.len(),
{
    reveal(Seq::filter);
    if entities.len() > 0 {
        lemma_sweep_leaves_cameras(entities.drop_last());
    }
}

/// The sweep removes no camera: a scene of cameras is left as it is.
pub proof fn lemma_sweep_keeps_cameras(entities: Seq<Entity>)
    requires
        all_cameras(entities),
    ensures
        cameras_of(entities) == entities,
    decreases entities.len(),
{
    reveal(Seq::filter);
    if entities.len() > 0 {
        let rest = entities.drop_last();
        assert forall|j: int| 0 <= j < rest.len() implies rest[j].spec_is_camera() by {
            assert(rest[j] == entities[j]);
        }
        lemma_sweep_keeps_cameras(rest);
        assert(entities.last().spec_is_camera());
        assert(rest.push(entities.last()) =~= entities);
    }
}

/// An entity survives the sweep exactly when it was there and is a camera.
pub proof fn lemma_sweep_keeps_exactly_the_cameras(entities: Seq<Entity>, e: Entity)
    ensures
        cameras_of(entities).contains(e) <==> entities.contains(e) && e.spec_is_camera(),
    decreases entities.len(),
{
    reveal(Seq::filter);
    if entities.len() > 0 {
        let rest = entities.drop_last();
        let last = entities.last();
        lemma_sweep_keeps_exactly_the_cameras(rest, e);
        if entities.contains(e) {
            let i = choose|i: int| 0 <= i < entities.len() && entities[i] == e;
            if i < rest.len() {
                assert(rest[i] == e);
            }
        }
        if rest.contains(e) {
            let i = choose|i: int| 0 <= i < rest.len() && rest[i] == e;
            assert(entities[i] == e);
        }
        assert(entities[entities.len() - 1] == last);
        let swept = cameras_of(rest);
        if last.spec_is_camera() {
            let more = swept.push(last);
            assert(cameras_of(entities) == more);
            assert(more[more.len() - 1] == last);
            if swept.contains(e) {
                let i = choose|i: int| 0 <= i < swept.len() && swept[i] == e;
                assert(more[i] == e);
            }
            if more.contains(e) {
                let i = choose|i: int| 0 <= i < more.len() && more[i] == e;
                if i < swept.len() {
                    assert(swept[i] == e);
                }
            }
        }
    }
}

/// Sweeping twice is sweeping once: with nothing left to remove the second
/// sweep changes nothing.
pub proof fn lemma_sweep_is_idempotent(entities: Seq<Entity>)
    ensures
        cameras_of(cameras_of(entities)) == cameras_of(entities),
{
    lemma_sweep_leaves_cameras(entities);
    lemma_sweep_keeps_cameras(cameras_of(entities));
}

/// Where there was no ship and no scoreboard, entering play leaves exactly
/// one of each.
pub proof fn lemma_spawn_one_of_each(entities: Seq<Entity>)
    requires
        none_of(entities, EntityKind::Ship),
        none_of(entities, EntityKind::Scoreboard),
    ensures
        exactly_one(entities + playing_entities(), EntityKind::Ship),
        exactly_one(entities + playing_entities(), EntityKind::Scoreboard),
{
    let scene = entities + playing_entities();
    let n = entities.len() as int;
    assert(scene[n] == Entity::Light);
    assert(scene[n + 1] == Entity::Ship(spawned_ship()));
    assert(scene[n + 2] == Entity::Scoreboard);
    assert forall|j: int| 0 <= j < n implies scene[j] == entities[j] by {}
    assert(sole(scene, EntityKind::Ship, n + 1));
    assert(sole(scene, EntityKind::Scoreboard, n + 2));
}

/// Whatever was alive before, once the old phase has been swept and play has
/// been entered there is exactly one ship and exactly one scoreboard.
pub proof fn lemma_entering_play_leaves_one_of_each(entities: Seq<Entity>)
    ensures
        exactly_one(entered(GameState::Playing, cameras_of(entities)), EntityKind::Ship),
        exactly_one(entered(GameState::Playing, cameras_of(entities)), EntityKind::Scoreboard),
        entered_score(GameState::Playing, 0) == 0,
{
    lemma_sweep_leaves_cameras(entities);
    lemma_spawn_one_of_each(cameras_of(entities));
}

/// Spawns the cameras: the world camera at the origin, then the interface
/// camera.
pub fn setup_cameras(game: &mut Game)
    ensures
        final(game).entities@ == old(game).entities@ + camera_entities(),
        final(game).score == old(game).score,
        final(game).state == old(game).state,
{
    game.entities.push(Entity::Camera(CameraState { position: Vec2 { x: 0, y: 0 } }));
    game.entities.push(Entity::UiCamera);
    assert(game.entities@ =~= old(game).entities@ + camera_entities());
}

/// Enters play: the score goes back to zero and the light, the ship and the
/// scoreboard are spawned, in that order.
pub fn setup(game: &mut Game)
    ensures
        final(game).score == 0,
        final(game).entities@ == old(game).entities@ + playing_entities(),
        final(game).state == old(game).state,
        none_of(old(game).entities@, EntityKind::Ship) ==> exactly_one(
            final(game).entities@,
            EntityKind::Ship,
        ),
        none_of(old(game).entities@, EntityKind::Scoreboard) ==> exactly_one(
            final(game).entities@,
            EntityKind::Scoreboard,
        ),
{
    game.score = 0;
    game.entities.push(Entity::Light);
    game.entities.push(Entity::Ship(Ship::spawn()));
    game.entities.push(Entity::Scoreboard);
    proof {
        let before = old(game).entities@;
        let scene = before + playing_entities();
        let n = before.len() as int;
        assert(game.entities@ =~= scene);
        assert forall|j: int| 0 <= j < n implies scene[j] == before[j] by {}
        if none_of(before, EntityKind::Ship) {
            assert(sole(scene, EntityKind::Ship, n + 1));
        }
        if none_of(before, EntityKind::Scoreboard) {
            assert(sole(scene, EntityKind::Scoreboard, n + 2));
        }
    }
}

fn keep_cameras(entities: &Vec<Entity>) -> (kept: Vec<Entity>)
    ensures
        kept@ == cameras_of(entities@),
{
    let mut kept: Vec<Entity> = Vec::new();
    let mut i: usize = 0;
    proof {
        reveal(Seq::filter);
        assert(entities@.take(0) =~= Seq::<Entity>::empty());
    }
    while i < entities.len()
        invariant
            i <= entities.len(),
            kept@ == cameras_of(entities@.take(i as int)),
        decreases entities.len() - i,
    {
        let entity: Entity = entities[i];
        proof {
            reveal(Seq::filter);
            let longer = entities@.take(i + 1);
            assert(longer.drop_last() =~= entities@.take(i as int));
            assert(longer.last() == entity);
        }
        if entity.is_camera() {
            kept.push(entity);
        }
        i += 1;
    }
    proof {
        assert(entities@.take(entities.len() as int) =~= entities@);
    }
    kept
}

/// Leaves a phase: every entity that is not a camera is removed. The cameras
/// stay, in their order and as they are; score and phase are not touched.
pub fn teardown(game: &mut Game)
    ensures
        final(game).entities@ == cameras_of(old(game).entities@),
        all_cameras(final(game).entities@),
        all_cameras(old(game).entities@) ==> final(game).entities@ == old(game).entities@,
        final(game).score == old(game).score,
        final(game).state == old(game).state,
{
    let kept: Vec<Entity> = keep_cameras(&game.entities);
    proof {
        lemma_sweep_leaves_cameras(game.entities@);
        if all_cameras(game.entities@) {
            lemma_sweep_keeps_cameras(game.entities@);
        }
    }
    game.entities = kept;
}

/// Starts a game: the cameras are spawned and play is entered.
pub fn start() -> (game: Game)
    ensures
        game.state == GameState::Playing,
        game.score == 0,
        game.entities@ == camera_entities() + playing_entities(),
        game.wf(),
{
    let mut game = Game { score: 0, state: GameState::Playing, entities: Vec::new() };
    setup_cameras(&mut game);
    proof {
        assert(game.entities@ =~= camera_entities());
        assert(none_of(game.entities@, EntityKind::Ship));
        assert(none_of(game.entities@, EntityKind::Scoreboard));
    }
    setup(&mut game);
    game
}

/// Changes the phase.
///
/// A change to the current phase is refused and leaves the game as it is.
/// Otherwise the old phase is left, which sweeps every entity but the
/// cameras, and the new one is entered, which for play resets the score and
/// spawns the light, the ship and the scoreboard.
pub fn set_state(game: &mut Game, next: GameState) -> (result: Result<(), StateError>)
    ensures
        next == old(game).state ==> result == Err::<(), StateError>(StateError::AlreadyInState)
            && *final(game) == *old(game),
        next != old(game).state ==> {
            &&& result is Ok
            &&& final(game).state == next
            &&& final(game).score == entered_score(next, old(game).score)
            &&& final(game).entities@ == entered(next, cameras_of(old(game).entities@))
            &&& final(game).wf()
        },
{
    if game.state == next {
        return Err(StateError::AlreadyInState);
    }
    teardown(game);
    game.state = next;
    match next {
        GameState::Playing => {
            proof {
                assert(none_of(game.entities@, EntityKind::Ship));
                assert(none_of(game.entities@, EntityKind::Scoreboard));
            }
            setup(game);
        },
        GameState::GameOver => {},
    }
    Ok(())
}

/// Handles the keys while the game is over: the restart key, pressed on this
/// tick, starts play again. During play, and without that key, nothing
/// changes.
pub fn gameover_keyboard(game: &mut Game, just_pressed: &Vec<Key>)
    ensures
        old(game).state == GameState::GameOver && just_pressed@.contains(Key::Restart) ==> {
            &&& final(game).state == GameState::Playing
            &&& final(game).score == 0
            &&& final(game).entities@ == cameras_of(old(game).entities@) + playing_entities()
            &&& final(game).wf()
        },
        !(old(game).state == GameState::GameOver && just_pressed@.contains(Key::Restart))
            ==> *final(game) == *old(game),
{
    if game.state == GameState::GameOver && pressed(just_pressed, Key::Restart) {
        let _ = set_state(game, GameState::Playing);
    }
}

} // verus!
