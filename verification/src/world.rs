//! The game as a whole: its phase, its score and the entities alive in it.

use vstd::prelude::*;
use crate::camera::CameraState;
use crate::ship::Ship;

verus! {

/// The two phases of a game.
#[derive(Clone, Copy, Debug, PartialEq, Eq, Hash, Structural)]
pub enum GameState {
    Playing,
    GameOver,
}

/// What an entity is, without its data.
#[derive(Clone, Copy, Debug, PartialEq, Eq, Structural)]
pub enum EntityKind {
    Camera,
    UiCamera,
    Light,
    Ship,
    Scoreboard,
}

/// One entity of the scene.
#[derive(Clone, Copy, Debug, PartialEq, Eq, Structural)]
pub enum Entity {
    /// The camera that shows the world and follows the ship.
    Camera(CameraState),
    /// The camera that shows the interface.
    UiCamera,
    /// The light of the play field.
    Light,
    /// The controlled body.
    Ship(Ship),
    /// The scoreboard text.
    Scoreboard,
}

impl Entity {
    /// The kind of this entity.
    pub open spec fn spec_kind(&self) -> EntityKind {
        match *self {
            Entity::Camera(_) => EntityKind::Camera,
            Entity::UiCamera => EntityKind::UiCamera,
            Entity::Light => EntityKind::Light,
            Entity::Ship(_) => EntityKind::Ship,
            Entity::Scoreboard => EntityKind::Scoreboard,
        }
    }

    /// Whether this entity is one of the cameras, which outlive every phase.
    pub open spec fn spec_is_camera(&self) -> bool {
        *self is Camera || *self is UiCamera
    }

    /// Returns the kind of this entity.
    #[verifier::when_used_as_spec(spec_kind)]
    pub fn kind(&self) -> (kind: EntityKind)
        ensures
            kind == self.spec_kind(),
    {
        match self {
            Entity::Camera(_) => EntityKind::Camera,
            Entity::UiCamera => EntityKind::UiCamera,
            Entity::Light => EntityKind::Light,
            Entity::Ship(_) => EntityKind::Ship,
            Entity::Scoreboard => EntityKind::Scoreboard,
        }
    }

    /// Tells whether this entity is one of the cameras.
    #[verifier::when_used_as_spec(spec_is_camera)]
    pub fn is_camera(&self) -> (camera: bool)
        ensures
            camera == self.spec_is_camera(),
    {
        match self {
            Entity::Camera(_) => true,
            Entity::UiCamera => true,
            _ => false,
        }
    }
}

/// The entity at `index` is of `kind` and no other entity is.
pub open spec fn sole(entities: Seq<Entity>, kind: EntityKind, index: int) -> bool {
    &&& 0 <= index < entities.len()
    &&& entities[index].spec_kind() == kind
    &&& forall|j: int| 0 <= j < entities.len() && j != index ==> entities[j].spec_kind() != kind
}

/// Exactly one entity is of `kind`.
pub open spec fn exactly_one(entities: Seq<Entity>, kind: EntityKind) -> bool {
    exists|index: int| sole(entities, kind, index)
}

/// No entity is of `kind`.
pub open spec fn none_of(entities: Seq<Entity>, kind: EntityKind) -> bool {
    forall|j: int| 0 <= j < entities.len() ==> entities[j].spec_kind() != kind
}

/// Every entity is a camera.
pub open spec fn all_cameras(entities: Seq<Entity>) -> bool {
    forall|j: int| 0 <= j < entities.len() ==> entities[j].spec_is_camera()
}

/// Where the only entity of `kind` stands, when there is exactly one.
pub open spec fn index_of(entities: Seq<Entity>, kind: EntityKind) -> int {
    choose|index: int| sole(entities, kind, index)
}

/// The only entity of a kind stands at one place only.
pub proof fn lemma_sole_is_unique(entities: Seq<Entity>, kind: EntityKind, a: int, b: int)
    requires
        sole(entities, kind, a),
        sole(entities, kind, b),
    ensures
        a == b,
{
}

/// Where the only entity of a kind has been found, there `index_of` points.
pub proof fn lemma_index_of_sole(entities: Seq<Entity>, kind: EntityKind, index: int)
    requires
        sole(entities, kind, index),
    ensures
        index_of(entities, kind) == index,
        exactly_one(entities, kind),
{
    lemma_sole_is_unique(entities, kind, index, index_of(entities, kind));
}

/// The state that the scheduler owns and hands to every system.
#[derive(Debug)]
pub struct Game {
    pub score: i32,
    pub state: GameState,
    pub entities: Vec<Entity>,
}

impl Game {
    /// What holds between any two transitions: during play there is exactly
    /// one ship and one scoreboard, after the game is over only the cameras
    /// are left.
    pub open spec fn wf(&self) -> bool {
        match self.state {
            GameState::Playing => {
                &&& exactly_one(self.entities@, EntityKind::Ship)
                &&& exactly_one(self.entities@, EntityKind::Scoreboard)
            },
            GameState::GameOver => all_cameras(self.entities@),
        }
    }

    /// Looks for the only entity of `kind`.
    ///
    /// Returns its index when there is exactly one such entity and `None`
    /// when there is none or more than one.
    pub fn find_single(&self, kind: EntityKind) -> (found: Option<usize>)
        ensures
            found is Some <==> exactly_one(self.entities@, kind),
            found is Some ==> sole(self.entities@, kind, found->0 as int) && found->0 == index_of(
                self.entities@,
                kind,
            ),
    {
        let mut found: Option<usize> = None;
        let mut i: usize = 0;
        while i < self.entities.len()
            invariant
                i <= self.entities.len(),
                match found {
                    Some(k) => {
                        &&& k < i
                        &&& self.entities@[k as int].spec_kind() == kind
                        &&& forall|j: int|
                            0 <= j < i && j != k ==> self.entities@[j].spec_kind() != kind
                    },
                    None => forall|j: int| 0 <= j < i ==> self.entities@[j].spec_kind() != kind,
                },
            decreases self.entities.len() - i,
        {
            if self.entities[i].kind() == kind {
                match found {
                    Some(k) => {
                        proof {
                            assert forall|c: int| !sole(self.entities@, kind, c) by {
                                if c == k as int {
                                    assert(self.entities@[i as int].spec_kind() == kind);
                                } else {
                                    assert(self.entities@[k as int].spec_kind() == kind);
                                }
                            }
                        }
                        return None;
                    },
                    None => {
                        found = Some(i);
                    },
                }
            }
            i += 1;
        }
        proof {
            match found {
                Some(k) => {
                    lemma_index_of_sole(self.entities@, kind, k as int);
                },
                None => {
                    assert forall|c: int| !sole(self.entities@, kind, c) by {
                        if 0 <= c < self.entities@.len() {
                            assert(self.entities@[c].spec_kind() != kind);
                        }
                    }
                },
            }
        }
        found
    }
}

} // verus!
