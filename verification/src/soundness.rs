//! Every rule of the game keeps a valid game valid.

use crate::board::{count, lemma_count_positive, lemma_eaten_valid, lemma_valid_landmarks,
    BoardView};
use crate::geometry::{Direction, Position};
use crate::ghost::{lemma_pick_best, Adversary, GhostState};
use crate::model::{placed, roamed, stepped, wandered, GameView};
use crate::period::Period;
use crate::player::Player;
use crate::pursuit::Role;
use crate::square::Square;
use vstd::prelude::*;

verus! {

/// On a valid board a square that is not a wall has all its neighbours on
/// the grid.
pub proof fn lemma_open_inner(board: BoardView, pos: Position)
    requires
        board.valid(),
        board.holds(pos),
        board.grid[pos.0 as int] != Square::Wall,
    ensures
        board.inner(pos),
{
}

/// The pathfinder leaves an adversary where all its neighbours are on the
/// grid.
pub proof fn lemma_moves_inner(g: Adversary, board: BoardView, target: Position)
    requires
        board.valid(),
        board.inner(g.pos),
    ensures
        board.inner(g.spec_moves(board.grid, target).1),
{
    lemma_pick_best(g, board.grid, target, 4);
    match g.pick(board.grid, target, 4) {
        Some(d) => {
            assert(g.legal(board.grid, d));
            lemma_open_inner(board, g.pos.spec_go(d));
        },
        None => {},
    }
}

/// One tick leaves an adversary well placed.
pub proof fn lemma_stepped_placed(
    g: Adversary,
    role: Role,
    board: BoardView,
    player: Player,
    ambusher: Position,
    period: Period,
    level: u32,
    telaps: u128,
    roll: u8,
)
    requires
        board.valid(),
        placed(g, board),
    ensures
        placed(stepped(g, role, board, player, ambusher, period, level, telaps, roll), board),
{
    let h = Adversary { edible_duration: g.edible_duration.saturating_sub(telaps), ..g };
    lemma_valid_landmarks(board);
    match h.state {
        GhostState::Home => {
            let w = wandered(h, board, roll);
            if w != h {
                lemma_open_inner(board, w.pos);
            }
        },
        GhostState::Gateway => {
            assert(board.grid[h.pos.0 as int] == Square::Gate);
        },
        GhostState::Dead => {
            if h.pos == board.gate1 || h.pos == board.gate2 {
                assert(board.grid[h.pos.0 as int] == Square::Gate);
            } else if h.pos == board.front_of_gate1 || h.pos == board.front_of_gate2 {
            } else {
                lemma_moves_inner(h, board, crate::model::nearer_front(board, h.pos));
            }
        },
        GhostState::Outside => {
            let r = roamed(h, role, board, player, ambusher, period, level, roll);
            if r != h {
                lemma_moves_inner(
                    h,
                    board,
                    crate::model::aim(h, role, board, player, ambusher, period),
                );
            }
        },
    }
}

/// Frightening the adversaries keeps the game valid.
pub proof fn lemma_ghosts_are_edible_valid(v: GameView, duration: u128)
    requires
        v.valid(),
    ensures
        v.ghosts_are_edible(duration).valid(),
{
    let w = v.ghosts_are_edible(duration);
    assert forall|i: int| 0 <= i < 4 implies placed(#[trigger] w.ghosts[i], w.board) by {
        assert(placed(v.ghosts[i], v.board));
    }
}

/// A move of the player keeps the game valid.
pub proof fn lemma_move_player_valid(v: GameView, pos: Position)
    requires
        v.valid(),
    ensures
        v.move_player(pos).0.valid(),
{
    if v.board.holds(pos) {
        let tile = v.board.grid[pos.0 as int];
        let i = pos.0 as int;
        lemma_eaten_valid(v.board, i);
        if tile != Square::Wall {
            lemma_open_inner(v.board, pos);
        }
        let w = v.move_player(pos).0;
        if tile == Square::Dot {
            lemma_count_positive(v.board.grid, Square::Dot, i);
            assert forall|k: int| 0 <= k < 4 implies placed(#[trigger] w.ghosts[k], w.board) by {
                assert(placed(v.ghosts[k], v.board));
            }
        } else if tile == Square::Pill {
            let u = GameView { board: v.board.eaten(i), ..v };
            assert forall|k: int| 0 <= k < 4 implies placed(#[trigger] w.ghosts[k], w.board) by {
                assert(placed(v.ghosts[k], v.board));
            }
        }
    }
}

/// The player's part of a tick keeps the game valid.
pub proof fn lemma_update_player_valid(v: GameView, telaps: u128)
    requires
        v.valid(),
    ensures
        v.update_player(telaps).0.valid(),
{
    let a = GameView { player: v.player.animated(telaps), ..v };
    assert(a.valid());
    lemma_move_player_valid(a, a.player.pos.spec_go(a.player.last_input_direction));
    lemma_move_player_valid(a, a.player.pos.spec_go(a.player.moving));
}

/// A meeting of the player with one adversary keeps the game valid.
pub proof fn lemma_collide_valid(v: GameView, i: int)
    requires
        v.valid(),
        0 <= i < 4,
    ensures
        v.collide(i).0.valid(),
{
    let w = v.collide(i).0;
    assert forall|k: int| 0 <= k < 4 implies placed(#[trigger] w.ghosts[k], w.board) by {
        assert(placed(v.ghosts[k], v.board));
    }
}

/// The meetings of the player with the first `k` adversaries keep the game
/// valid.
pub proof fn lemma_collide_first_valid(v: GameView, k: nat)
    requires
        v.valid(),
        k <= 4,
    ensures
        v.collide_first(k).0.valid(),
    decreases k,
{
    if k > 0 {
        lemma_collide_first_valid(v, (k - 1) as nat);
        lemma_collide_valid(v.collide_first((k - 1) as nat).0, k - 1);
    }
}

/// The adversaries' part of a tick keeps the game valid.
pub proof fn lemma_update_ghosts_valid(v: GameView, telaps: u128, rolls: Seq<u8>)
    requires
        v.valid(),
    ensures
        v.update_ghosts(telaps, rolls).valid(),
{
    let w = v.update_ghosts(telaps, rolls);
    assert forall|i: int| 0 <= i < 4 implies placed(#[trigger] w.ghosts[i], w.board) by {
        assert(placed(v.ghosts[i], v.board));
        lemma_stepped_placed(
            v.ghosts[i],
            Role::of_index(i),
            v.board,
            v.player,
            v.ghosts[1].pos,
            v.period(),
            v.level,
            telaps,
            rolls[i],
        );
    }
}

/// A tick keeps the game valid.
pub proof fn lemma_update_valid(v: GameView, dur: u128, rolls: Seq<u8>)
    requires
        v.valid(),
    ensures
        v.update(dur, rolls).0.valid(),
{
    lemma_update_player_valid(v, dur);
    let a = v.update_player(dur).0;
    lemma_collide_first_valid(a, 4);
    let b = a.check_player_vs_ghosts().0;
    lemma_update_ghosts_valid(b, dur, rolls);
    let c = b.update_ghosts(dur, rolls);
    lemma_collide_first_valid(c, 4);
}

/// What a tick comes to keeps the game valid.
pub proof fn lemma_settle_valid(v: GameView, roll: u128)
    requires
        v.valid(),
    ensures
        v.settle(roll).0.valid(),
{
}

/// A tick and what it comes to keep the game valid.
pub proof fn lemma_step_valid(v: GameView, dur: u128, rolls: Seq<u8>, fruit_roll: u128)
    requires
        v.valid(),
    ensures
        v.step(dur, rolls, fruit_roll).0.valid(),
{
    lemma_update_valid(v, dur, rolls);
    lemma_settle_valid(v.update(dur, rolls).0, fruit_roll);
}

/// Obeying the input keeps the game valid.
pub proof fn lemma_handle_input_valid(v: GameView, input: crate::event::InputEvent)
    requires
        v.valid(),
    ensures
        v.handle_input(input).0.valid(),
{
    lemma_ghosts_are_edible_valid(v, v.pill_duration);
}

/// The start of a life is valid wherever the board and the dot counter
/// are.
pub proof fn lemma_respawned_valid(v: GameView)
    requires
        v.board.valid(),
        v.dots_left == count(v.board.grid, Square::Dot) + v.fruit_tokens,
        v.fruit_tokens <= 2,
        v.dots_left >= crate::model::FIRST_FRUIT_AT ==> v.fruit_tokens == 2,
        v.dots_left >= crate::model::SECOND_FRUIT_AT ==> v.fruit_tokens >= 1,
    ensures
        v.respawned().valid(),
        v.reset_ghosts().board == v.board,
{
    lemma_valid_landmarks(v.board);
    let w = v.respawned();
    assert forall|i: int| 0 <= i < 4 implies placed(#[trigger] w.ghosts[i], w.board) by {
        assert(v.board.inner(v.board.ghost_start[i]));
    }
}

/// A new game, the next level and a new life are valid.
pub proof fn lemma_restarts_valid(v: GameView, board: BoardView, level: u32)
    requires
        board.valid(),
    ensures
        GameView::fresh(board, level).valid(),
        v.next_level(board).valid(),
        v.valid() ==> v.lose_life().0.valid(),
        v.valid() ==> v.reset_ghosts().valid(),
{
    crate::board::lemma_count_bound(board.grid, Square::Dot);
    let f = GameView {
        board,
        dots_left: (count(board.grid, Square::Dot) + 2) as usize,
        fruit_tokens: 2,
        ..v
    };
    lemma_respawned_valid(GameView { level: v.level.saturating_add(1), timecum: 0, ..f });
    let g = GameView {
        board,
        player: Player {
            pos: board.pacman_start,
            dead: false,
            last_input_direction: Direction::Left,
            moving: Direction::Left,
            anim_frame: 0,
            timecum: 0,
        },
        ghosts: Seq::empty(),
        timecum: 0,
        dots_left: 0,
        fruit_tokens: 0,
        score: 0,
        high_score: crate::model::FIRST_HIGH_SCORE,
        lives: crate::model::FIRST_LIVES,
        level,
        pill_duration: crate::model::PILL_MS,
        fruit_duration: 0,
        next_ghost_score: 0,
    };
    lemma_respawned_valid(g.repopulate_board(board));
    if v.valid() {
        if v.lives > 0 {
            lemma_respawned_valid(GameView { lives: (v.lives - 1) as u32, ..v });
        }
        lemma_respawned_valid(v);
        let r = v.reset_ghosts();
        assert forall|i: int| 0 <= i < 4 implies placed(#[trigger] r.ghosts[i], r.board) by {
            assert(placed(v.respawned().ghosts[i], v.board));
        }
    }
}

} // verus!
