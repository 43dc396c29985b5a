//! The player: where it stands, where it is heading, and its animation.

use crate::board::Board;
use crate::geometry::{Direction, Position};
use vstd::prelude::*;

verus! {

/// Milliseconds that one frame of the animation lasts.
pub const FRAME_MS: u128 = 100;

/// Number of frames of the animation.
pub const FRAMES: usize = 6;

/// The player.
#[derive(Debug, Copy, Clone, PartialEq, Eq, Structural)]
pub struct Player {
    pub pos: Position,
    pub dead: bool,
    /// The direction that the input asked for last.
    pub last_input_direction: Direction,
    /// The direction in which the player is moving.
    pub moving: Direction,
    pub anim_frame: usize,
    /// Milliseconds since the animation frame changed last.
    pub timecum: u128,
}

/// Number of whole frames that have passed once `t` milliseconds have
/// gathered: a frame ends when more than `FRAME_MS` are there.
pub open spec fn frames_in(t: u128) -> int {
    if t == 0 {
        0
    } else {
        (t - 1) / FRAME_MS as int
    }
}

impl Player {
    /// The player after `telaps` more milliseconds of animation. The
    /// gathered time saturates; each whole frame in it moves the frame
    /// counter on by one, modulo `FRAMES`, and is taken from the time.
    pub open spec fn animated(self, telaps: u128) -> Player {
        let t = self.timecum.saturating_add(telaps);
        Player {
            timecum: (t - frames_in(t) * FRAME_MS) as u128,
            anim_frame: ((self.anim_frame + frames_in(t)) % FRAMES as int) as usize,
            ..self
        }
    }

    /// The player at the start of a life: alive on the start square of the
    /// board, heading left.
    pub fn new(board: &Board) -> (p: Player)
        ensures
            p == (Player {
                pos: board@.pacman_start,
                dead: false,
                last_input_direction: Direction::Left,
                moving: Direction::Left,
                anim_frame: 0,
                timecum: 0,
            }),
    {
        Player {
            pos: board.pacman_start(),
            dead: false,
            last_input_direction: Direction::Left,
            moving: Direction::Left,
            anim_frame: 0,
            timecum: 0,
        }
    }

    /// Lets `telaps` milliseconds of animation pass.
    pub fn animate(&mut self, telaps: u128)
        ensures
            *final(self) == old(self).animated(telaps),
            final(self).timecum <= FRAME_MS,
            final(self).anim_frame < FRAMES,
    {
        let t: u128 = self.timecum.saturating_add(telaps);
        let n: u128 = if t == 0 {
            0
        } else {
            (t - 1) / FRAME_MS
        };
        let frame: u128 = ((self.anim_frame % FRAMES) as u128 + n % (FRAMES as u128)) % (
        FRAMES as u128);
        self.timecum = t - n * FRAME_MS;
        self.anim_frame = frame as usize;
    }
}

} // verus!
