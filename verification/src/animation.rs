//! Sprite-sheet animation of the ship: a two-mode state machine that picks
//! the frame to show on every control tick.

use vstd::prelude::*;

verus! {

/// Number of frames on the ship's sprite sheet.
pub const SHEET_LENGTH: u32 = 8;

/// Frame shown while the engine idles.
pub const STANDBY_FRAME: u32 = 1;

/// First frame of the looping thrust flame.
pub const FLAME_FIRST: u32 = 5;

/// Last frame of the looping thrust flame.
pub const FLAME_LAST: u32 = 7;

/// What the engine is doing on the current tick.
#[derive(Clone, Copy, Debug, PartialEq, Eq, Structural)]
pub enum SpaceShipMode {
    ThrustingForward,
    Standby,
}

/// Animation state carried by the ship.
#[derive(Clone, Copy, Debug, PartialEq, Eq, Structural)]
pub struct SpaceShipAnimation {
    /// Frame of the sprite sheet that is shown.
    pub index: u32,
    /// Mode decided by the controls on this tick.
    pub mode: SpaceShipMode,
}

/// The frame that follows `index` after one tick in `mode`.
///
/// Standby always shows the idle frame. Thrust climbs one frame per tick up to
/// the last flame frame and then falls back to the first flame frame.
pub open spec fn spec_next_frame(mode: SpaceShipMode, index: u32) -> u32 {
    match mode {
        SpaceShipMode::Standby => STANDBY_FRAME,
        SpaceShipMode::ThrustingForward => if index < FLAME_LAST {
            (index + 1) as u32
        } else {
            FLAME_FIRST
        },
    }
}

/// The frame reached from `index` after `ticks` consecutive ticks of thrust.
pub open spec fn frame_after_thrust(index: u32, ticks: nat) -> u32
    decreases ticks,
{
    if ticks == 0 {
        index
    } else {
        spec_next_frame(
            SpaceShipMode::ThrustingForward,
            frame_after_thrust(index, (ticks - 1) as nat),
        )
    }
}

/// Computes the frame that follows `index` after one tick in `mode`.
pub fn next_frame(mode: SpaceShipMode, index: u32) -> (next: u32)
    ensures
        next == spec_next_frame(mode, index),
        next < SHEET_LENGTH,
        mode == SpaceShipMode::Standby ==> next == STANDBY_FRAME,
        mode == SpaceShipMode::ThrustingForward && index >= FLAME_FIRST ==> FLAME_FIRST <= next
            <= FLAME_LAST,
{
    match mode {
        SpaceShipMode::Standby => STANDBY_FRAME,
        SpaceShipMode::ThrustingForward => {
            if index < FLAME_FIRST {
                index + 1
            } else if index < FLAME_LAST {
                index + 1
            } else {
                FLAME_FIRST
            }
        },
    }
}

impl SpaceShipAnimation {
    /// The animation of a ship that has just been spawned: idle frame, engine
    /// on standby.
    pub fn new() -> (anim: SpaceShipAnimation)
        ensures
            anim.index == STANDBY_FRAME,
            anim.mode == SpaceShipMode::Standby,
    {
        SpaceShipAnimation { index: STANDBY_FRAME, mode: SpaceShipMode::Standby }
    }

    /// The animation one tick later.
    pub open spec fn spec_advance(self) -> SpaceShipAnimation {
        SpaceShipAnimation { index: spec_next_frame(self.mode, self.index), mode: self.mode }
    }

    /// Advances the animation by one tick: the frame moves on according to
    /// the stored mode, the mode itself is left alone.
    pub fn advance(&mut self)
        ensures
            *final(self) == old(self).spec_advance(),
            final(self).index < SHEET_LENGTH,
    {
        let next: u32 = next_frame(self.mode, self.index);
        self.index = next;
    }
}

/// Every frame the controller produces lies on the sprite sheet, whatever
/// frame it started from.
pub proof fn lemma_frame_on_sheet(mode: SpaceShipMode, index: u32)
    ensures
        spec_next_frame(mode, index) < SHEET_LENGTH,
{
}

/// A standby tick shows the idle frame, whatever was shown before.
pub proof fn lemma_standby_resets(index: u32)
    ensures
        spec_next_frame(SpaceShipMode::Standby, index) == STANDBY_FRAME,
{
}

/// Once the flame loop is entered, thrust never leaves it: from a flame frame
/// any number of thrust ticks ends on a flame frame.
pub proof fn lemma_flame_loop_is_closed(index: u32, ticks: nat)
    requires
        index >= FLAME_FIRST,
    ensures
        ticks > 0 ==> FLAME_FIRST <= frame_after_thrust(index, ticks) <= FLAME_LAST,
    decreases ticks,
{
    if ticks > 1 {
        lemma_flame_loop_is_closed(index, (ticks - 1) as nat);
    } else {
        assert(frame_after_thrust(index, 0) == index);
    }
}

/// Sustained thrust from the idle frame climbs through frames 2, 3 and 4 and
/// then cycles through the three flame frames for ever.
pub proof fn lemma_thrust_from_standby(ticks: nat)
    ensures
        ticks <= 4 ==> frame_after_thrust(STANDBY_FRAME, ticks) == STANDBY_FRAME + ticks,
        ticks > 4 ==> frame_after_thrust(STANDBY_FRAME, ticks) == FLAME_FIRST + (ticks - 4) % 3,
    decreases ticks,
{
    if ticks > 0 {
        lemma_thrust_from_standby((ticks - 1) as nat);
    }
}

} // verus!
