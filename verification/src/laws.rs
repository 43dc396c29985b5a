//! What holds of the rules of the game whatever the state and the rolls.

use crate::board::{count, BoardView};
use crate::geometry::Position;
use crate::ghost::{lemma_never_reverses, Adversary, GhostState};
use crate::model::{aim, nearer_front, stepped, GameView};
use crate::period::Period;
use crate::player::Player;
use crate::pursuit::Role;
use crate::soundness::lemma_step_valid;
use crate::square::Square;
use vstd::prelude::*;

verus! {

/// Vulnerability runs down by the time that has passed and stops at
/// nothing: after a tick of `telaps` milliseconds it is the old value less
/// `telaps`, or nothing where that would be negative. It never grows in an
/// adversary's own step.
pub proof fn lemma_vulnerability_decay(
    g: Adversary,
    role: Role,
    board: BoardView,
    player: Player,
    ambusher: Position,
    period: Period,
    level: u32,
    telaps: u128,
    roll: u8,
)
    ensures
        stepped(g, role, board, player, ambusher, period, level, telaps, roll).edible_duration
            == if g.edible_duration - telaps > 0 {
            g.edible_duration - telaps
        } else {
            0
        },
        stepped(g, role, board, player, ambusher, period, level, telaps, roll).edible_duration
            <= g.edible_duration,
{
}

/// The same of every adversary in the adversaries' part of a tick.
pub proof fn lemma_vulnerability_decay_all(v: GameView, telaps: u128, rolls: Seq<u8>, i: int)
    requires
        0 <= i < 4,
    ensures
        v.update_ghosts(telaps, rolls).ghosts[i].edible_duration == if v.ghosts[i].edible_duration
            - telaps > 0 {
            v.ghosts[i].edible_duration - telaps
        } else {
            0
        },
{
    lemma_vulnerability_decay(
        v.ghosts[i],
        Role::of_index(i),
        v.board,
        v.player,
        v.ghosts[1].pos,
        v.period(),
        v.level,
        telaps,
        rolls[i],
    );
}

/// An adversary outside the house that is not vulnerable once the tick has
/// run its vulnerability down never turns back: after its step it does not
/// face against its last move, and it has stayed or gone one square the
/// way it faces. This holds also where turning back is the only way on.
pub proof fn lemma_no_reversal_outside(
    g: Adversary,
    role: Role,
    board: BoardView,
    player: Player,
    ambusher: Position,
    period: Period,
    level: u32,
    telaps: u128,
    roll: u8,
)
    requires
        g.state == GhostState::Outside,
        g.edible_duration <= telaps,
    ensures
        ({
            let s = stepped(g, role, board, player, ambusher, period, level, telaps, roll);
            &&& s.direction != g.direction.spec_opposite()
            &&& s.pos == g.pos || s.pos == g.pos.spec_go(s.direction)
        }),
{
    let h = Adversary { edible_duration: g.edible_duration.saturating_sub(telaps), ..g };
    lemma_never_reverses(h, board.grid, aim(h, role, board, player, ambusher, period));
}

/// An eaten adversary on its way home, away from the gates and the squares
/// in front of them, never turns back either.
pub proof fn lemma_no_reversal_dead(
    g: Adversary,
    role: Role,
    board: BoardView,
    player: Player,
    ambusher: Position,
    period: Period,
    level: u32,
    telaps: u128,
    roll: u8,
)
    requires
        g.state == GhostState::Dead,
        g.edible_duration <= telaps,
        g.pos != board.gate1 && g.pos != board.gate2,
        g.pos != board.front_of_gate1 && g.pos != board.front_of_gate2,
    ensures
        ({
            let s = stepped(g, role, board, player, ambusher, period, level, telaps, roll);
            &&& s.direction != g.direction.spec_opposite()
            &&& s.pos == g.pos || s.pos == g.pos.spec_go(s.direction)
        }),
{
    let h = Adversary { edible_duration: g.edible_duration.saturating_sub(telaps), ..g };
    lemma_never_reverses(h, board.grid, nearer_front(board, h.pos));
}

/// A new level on a built-in maze holds dots enough for both fruits to
/// show: its dot counter starts at or above the mark of the first fruit.
pub proof fn lemma_fruits_are_due(level: u32)
    ensures
        crate::maze::spec_dots(level) + crate::model::FRUIT_TOKENS
            >= crate::model::FIRST_FRUIT_AT,
        crate::model::FIRST_FRUIT_AT > crate::model::SECOND_FRUIT_AT,
{
}

/// The dot counter is at nothing when, and only when, no dot is left on
/// the board and both fruit tokens are used.
pub proof fn lemma_dot_counter(v: GameView)
    requires
        v.valid(),
    ensures
        v.dots_left == 0 <==> count(v.board.grid, Square::Dot) == 0 && v.fruit_tokens == 0,
        v.dots_left == count(v.board.grid, Square::Dot) + v.fruit_tokens,
{
}

/// The same after any tick: whatever the rolls, the dot counter of the
/// next state is at nothing just when its board holds no dot and both
/// fruit tokens are used.
pub proof fn lemma_dot_counter_after_step(v: GameView, dur: u128, rolls: Seq<u8>, fruit_roll: u128)
    requires
        v.valid(),
    ensures
        ({
            let w = v.step(dur, rolls, fruit_roll).0;
            w.dots_left == 0 <==> count(w.board.grid, Square::Dot) == 0 && w.fruit_tokens == 0
        }),
{
    lemma_step_valid(v, dur, rolls, fruit_roll);
}

/// The meetings of the player with the first `k` adversaries take no
/// points away.
proof fn lemma_meetings_keep_points(v: GameView, k: nat)
    ensures
        v.collide_first(k).0.score >= v.score,
    decreases k,
{
    if k > 0 {
        lemma_meetings_keep_points(v, (k - 1) as nat);
    }
}

/// A tick takes no points away: after it the score is at least what it
/// was, and the high score is at least what it was.
pub proof fn lemma_score_never_falls(v: GameView, dur: u128, rolls: Seq<u8>, fruit_roll: u128)
    ensures
        v.step(dur, rolls, fruit_roll).0.score >= v.score,
        v.step(dur, rolls, fruit_roll).0.high_score >= v.high_score,
{
    let a = v.update_player(dur).0;
    assert(a.score >= v.score && a.high_score >= v.high_score);
    lemma_meetings_keep_points(a, 4);
    let b = a.check_player_vs_ghosts().0;
    lemma_meetings_high(a, 4);
    let c = b.update_ghosts(dur, rolls);
    lemma_meetings_keep_points(c, 4);
    lemma_meetings_high(c, 4);
}

/// The meetings of the player with the adversaries leave the high score
/// alone.
proof fn lemma_meetings_high(v: GameView, k: nat)
    ensures
        v.collide_first(k).0.high_score == v.high_score,
    decreases k,
{
    if k > 0 {
        lemma_meetings_high(v, (k - 1) as nat);
    }
}

/// What a tick comes to tells of a death just when the player is dead,
/// and of a complete level just when the player lives and the dot counter
/// is at nothing.
pub proof fn lemma_settle_outcome(v: GameView, roll: u128)
    requires
        v.valid(),
    ensures
        v.settle(roll).1.contains(crate::event::Event::LevelComplete) <==> !v.player.dead
            && v.dots_left == 0,
        v.settle(roll).1.contains(crate::event::Event::PlayerDied) <==> v.player.dead,
{
    let e = v.settle(roll).1;
    if v.player.dead {
        assert(e[0] == crate::event::Event::PlayerDied);
    } else if v.dots_left == 0 {
        assert(e[0] == crate::event::Event::LevelComplete);
    }
}

} // verus!
