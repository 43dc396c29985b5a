//! The game as a mathematical state, and the rules as functions from state
//! to state. The executable game is proved to follow these functions.

use crate::board::{count, BoardView};
use crate::bonus::{bonus_value, spec_fruit_window};
use crate::event::{Command, Event, InputEvent};
use crate::geometry::{Direction, Position};
use crate::ghost::{Adversary, GhostState};
use crate::period::{spec_period_at, Period};
use crate::player::Player;
use crate::pursuit::{spec_chase_target, spec_scatter_corner, Role};
use crate::square::Square;
use vstd::prelude::*;

verus! {

/// Lives that the player can hold at most.
pub const MAX_LIVES: u32 = 6;

/// Lives at the start of a game.
pub const FIRST_LIVES: u32 = 3;

/// The score that earns one more life.
pub const EXTRA_LIFE_SCORE: u32 = 10000;

/// The high score that a new game starts with.
pub const FIRST_HIGH_SCORE: u32 = 9710;

/// Milliseconds of vulnerability that a pill grants.
pub const PILL_MS: u128 = 6000;

/// Points for a dot.
pub const DOT_SCORE: u32 = 10;

/// Points for a pill.
pub const PILL_SCORE: u32 = 50;

/// Points for the first adversary eaten after a pill.
pub const FIRST_GHOST_SCORE: u32 = 200;

/// Number of counter tokens that are set aside for the fruit.
pub const FRUIT_TOKENS: usize = 2;

/// Value of the dot counter at which the first fruit shows.
pub const FIRST_FRUIT_AT: usize = 174;

/// Value of the dot counter at which the second fruit shows.
pub const SECOND_FRUIT_AT: usize = 74;

/// The state of a game.
#[verifier::ext_equal]
pub struct GameView {
    pub board: BoardView,
    pub player: Player,
    pub ghosts: Seq<Adversary>,
    /// Milliseconds into the level.
    pub timecum: u128,
    /// Dots that are left, plus the fruit tokens that are left.
    pub dots_left: usize,
    /// Fruit tokens that are left.
    pub fruit_tokens: usize,
    pub score: u32,
    pub high_score: u32,
    pub lives: u32,
    pub level: u32,
    /// Milliseconds of vulnerability that a pill grants.
    pub pill_duration: u128,
    /// Milliseconds for which the fruit still shows.
    pub fruit_duration: u128,
    /// Points for the adversary that is eaten next.
    pub next_ghost_score: u32,
}

/// The direction in which a roll sends an adversary at home.
pub open spec fn wander_direction(roll: u8) -> Direction {
    if roll % 4 == 0 {
        Direction::Left
    } else if roll % 4 == 1 {
        Direction::Right
    } else if roll % 4 == 2 {
        Direction::Up
    } else {
        Direction::Down
    }
}

/// The direction that a roll gives an adversary that leaves by a gate.
pub open spec fn exit_heading(roll: u8) -> Direction {
    if roll % 2 == 0 {
        Direction::Left
    } else {
        Direction::Right
    }
}

/// Of the two squares in front of a gate, the one nearer to `pos`; the
/// first where both are equally near.
pub open spec fn nearer_front(board: BoardView, pos: Position) -> Position {
    if pos.spec_dist_city(board.front_of_gate2) < pos.spec_dist_city(board.front_of_gate1) {
        board.front_of_gate2
    } else {
        board.front_of_gate1
    }
}

/// An adversary after a pill of `duration` milliseconds: outside the house
/// or on a gate it is vulnerable for that much longer.
pub open spec fn frightened(g: Adversary, duration: u128) -> Adversary {
    if g.state == GhostState::Outside || g.state == GhostState::Gateway {
        Adversary { edible_duration: g.edible_duration.saturating_add(duration), ..g }
    } else {
        g
    }
}

/// An adversary at home after one tick: it steps onto the square that the
/// roll picks if that is part of the house or a gate, and a gate makes it
/// leave.
pub open spec fn wandered(g: Adversary, board: BoardView, roll: u8) -> Adversary {
    let d = wander_direction(roll);
    let pos = g.pos.spec_go(d);
    if !g.pos.can_go(d) || !board.holds(pos) {
        g
    } else if board.grid[pos.0 as int] == Square::House {
        Adversary { direction: Direction::Left, pos, ..g }
    } else if board.grid[pos.0 as int] == Square::Gate {
        Adversary { state: GhostState::Gateway, direction: Direction::Left, pos, ..g }
    } else {
        g
    }
}

/// An eaten adversary after one tick: on a gate it drops into the house
/// and is at home; in front of a gate it steps down onto that gate;
/// elsewhere the pathfinder leads it to the nearer front of a gate.
pub open spec fn returned(g: Adversary, board: BoardView) -> Adversary {
    if g.pos == board.gate1 || g.pos == board.gate2 {
        Adversary { state: GhostState::Home, pos: g.pos.spec_go(Direction::Down), ..g }
    } else if g.pos == board.front_of_gate1 || g.pos == board.front_of_gate2 {
        Adversary { direction: Direction::Down, pos: g.pos.spec_go(Direction::Down), ..g }
    } else {
        let m = g.spec_moves(board.grid, nearer_front(board, g.pos));
        Adversary { direction: m.0, pos: m.1, ..g }
    }
}

/// What an adversary outside the house aims at: away from the player when
/// vulnerable, else its target in a chase and its corner in a scatter.
pub open spec fn aim(
    g: Adversary,
    role: Role,
    board: BoardView,
    player: Player,
    ambusher: Position,
    period: Period,
) -> Position {
    if g.vulnerable() {
        player.pos
    } else if period == Period::Chase {
        spec_chase_target(role, player.pos, player.moving, ambusher, g.pos, board.height())
    } else {
        spec_scatter_corner(role, board.height())
    }
}

/// An adversary outside the house after one tick: slowed down it stays,
/// else the pathfinder moves it towards its aim, or away from the player.
pub open spec fn roamed(
    g: Adversary,
    role: Role,
    board: BoardView,
    player: Player,
    ambusher: Position,
    period: Period,
    level: u32,
    roll: u8,
) -> Adversary {
    if g.spec_slow_with(
        level,
        board.holds(g.pos) && board.grid[g.pos.0 as int] == Square::Tunnel,
        roll,
    ) {
        g
    } else {
        let m = g.spec_moves(board.grid, aim(g, role, board, player, ambusher, period));
        Adversary { direction: m.0, pos: m.1, ..g }
    }
}

/// One adversary after one tick of `telaps` milliseconds. Its
/// vulnerability runs down first, to nothing at the least; then it acts
/// by its state.
pub open spec fn stepped(
    g: Adversary,
    role: Role,
    board: BoardView,
    player: Player,
    ambusher: Position,
    period: Period,
    level: u32,
    telaps: u128,
    roll: u8,
) -> Adversary {
    let g = Adversary { edible_duration: g.edible_duration.saturating_sub(telaps), ..g };
    match g.state {
        GhostState::Home => wandered(g, board, roll),
        GhostState::Gateway => Adversary {
            state: GhostState::Outside,
            direction: exit_heading(roll),
            pos: g.pos.spec_go(Direction::Up),
            ..g
        },
        GhostState::Dead => returned(g, board),
        GhostState::Outside => roamed(g, role, board, player, ambusher, period, level, roll),
    }
}

/// A roll suits an adversary in a state: at home it is one of the four
/// directions of a wander, and for an eaten adversary, which takes no roll,
/// it is nothing. On a gate and outside the house any byte will do.
pub open spec fn roll_suits(state: GhostState, roll: u8) -> bool {
    match state {
        GhostState::Home => roll < 4,
        GhostState::Dead => roll == 0,
        _ => true,
    }
}

/// Number of rolls that the first `n` adversaries take in a tick: one for
/// each that is not eaten.
pub open spec fn rolls_due(ghosts: Seq<Adversary>, n: nat) -> nat
    decreases n,
{
    if n == 0 {
        0
    } else {
        rolls_due(ghosts, (n - 1) as nat) + if ghosts[n - 1].state == GhostState::Dead {
            0nat
        } else {
            1nat
        }
    }
}

/// An adversary stands where all its neighbours are on the grid, and on a
/// gate if it is about to leave.
pub open spec fn placed(g: Adversary, board: BoardView) -> bool {
    &&& board.inner(g.pos)
    &&& g.state == GhostState::Gateway ==> board.grid[g.pos.0 as int] == Square::Gate
}

impl GameView {
    /// What always holds of a game: the board is valid, the player and the
    /// four adversaries stand where all their neighbours are on the grid,
    /// an adversary that is leaving stands on a gate, and the dot counter
    /// is the number of dots on the board plus the fruit tokens that are
    /// left, of which none is used before its time.
    pub open spec fn valid(self) -> bool {
        &&& self.board.valid()
        &&& self.ghosts.len() == 4
        &&& self.board.inner(self.player.pos)
        &&& forall|i: int| 0 <= i < 4 ==> placed(#[trigger] self.ghosts[i], self.board)
        &&& self.dots_left == count(self.board.grid, Square::Dot) + self.fruit_tokens
        &&& self.fruit_tokens <= FRUIT_TOKENS
        &&& self.dots_left >= FIRST_FRUIT_AT ==> self.fruit_tokens == 2
        &&& self.dots_left >= SECOND_FRUIT_AT ==> self.fruit_tokens >= 1
    }

    /// The phase that the schedule is in.
    pub open spec fn period(self) -> Period {
        spec_period_at(self.level, self.timecum)
    }

    /// The four adversaries at home on their start squares.
    pub open spec fn reset_ghosts(self) -> GameView {
        GameView {
            ghosts: Seq::new(
                4,
                |i: int|
                    Adversary {
                        pos: self.board.ghost_start[i],
                        direction: Direction::Left,
                        edible_duration: 0,
                        state: GhostState::Home,
                    },
            ),
            ..self
        }
    }

    /// Every adversary outside the house or on a gate is vulnerable for
    /// `duration` milliseconds longer.
    pub open spec fn ghosts_are_edible(self, duration: u128) -> GameView {
        GameView { ghosts: Seq::new(4, |i: int| frightened(self.ghosts[i], duration)), ..self }
    }

    /// The player tries to enter square `pos`. A wall, a gate or the house
    /// refuses it and nothing changes. Elsewhere the player stands on
    /// `pos` afterwards: a dot there is eaten for `DOT_SCORE` points and
    /// one off the dot counter; a pill is eaten for `PILL_SCORE` points,
    /// frightens the adversaries and sets the next catch to
    /// `FIRST_GHOST_SCORE`; the fruit, while it shows, gives its bonus and
    /// is gone.
    pub open spec fn move_player(self, pos: Position) -> (GameView, Seq<Event>, bool) {
        if !self.board.holds(pos) {
            (self, Seq::empty(), false)
        } else {
            let there = GameView { player: Player { pos, ..self.player }, ..self };
            match self.board.grid[pos.0 as int] {
                Square::Dot => (
                    GameView {
                        score: self.score.saturating_add(DOT_SCORE),
                        dots_left: (self.dots_left - 1) as usize,
                        board: self.board.eaten(pos.0 as int),
                        ..there
                    },
                    Seq::empty(),
                    true,
                ),
                Square::Pill => (
                    GameView {
                        score: self.score.saturating_add(PILL_SCORE),
                        next_ghost_score: FIRST_GHOST_SCORE,
                        board: self.board.eaten(pos.0 as int),
                        ..there
                    }.ghosts_are_edible(self.pill_duration),
                    seq![Event::PillEaten],
                    true,
                ),
                Square::Fruit => if self.fruit_duration > 0 {
                    (
                        GameView {
                            score: self.score.saturating_add(bonus_value(self.level)),
                            fruit_duration: 0,
                            ..there
                        },
                        seq![Event::FruitEaten(bonus_value(self.level))],
                        true,
                    )
                } else {
                    (there, Seq::empty(), true)
                },
                Square::Empty | Square::Tunnel | Square::Start => (there, Seq::empty(), true),
                Square::Wall | Square::Gate | Square::House => (self, Seq::empty(), false),
            }
        }
    }

    /// What follows a move of the player: one more life, once, where the
    /// score has just reached `EXTRA_LIFE_SCORE` and the lives are below
    /// `MAX_LIVES`; and the high score keeps up with the score.
    pub open spec fn rewarded(self, score_before: u32) -> (GameView, Seq<Event>) {
        let life = score_before < EXTRA_LIFE_SCORE && self.score >= EXTRA_LIFE_SCORE && self.lives
            < MAX_LIVES;
        (
            GameView {
                lives: if life {
                    (self.lives + 1) as u32
                } else {
                    self.lives
                },
                high_score: if self.score > self.high_score {
                    self.score
                } else {
                    self.high_score
                },
                ..self
            },
            if life {
                seq![Event::ExtraLifeGranted]
            } else {
                Seq::empty()
            },
        )
    }

    /// The player's part of a tick. The animation goes on. The player
    /// tries the direction that the input asked for and, where that is
    /// refused, the direction it is moving in; where both are refused it
    /// stays and nothing else happens.
    pub open spec fn update_player(self, telaps: u128) -> (GameView, Seq<Event>) {
        let a = GameView { player: self.player.animated(telaps), ..self };
        let wish = a.player.last_input_direction;
        let first = a.move_player(a.player.pos.spec_go(wish));
        if first.2 {
            let b = GameView { player: Player { moving: wish, ..first.0.player }, ..first.0 };
            let r = b.rewarded(self.score);
            (r.0, first.1 + r.1)
        } else {
            let second = a.move_player(a.player.pos.spec_go(a.player.moving));
            if second.2 {
                let r = second.0.rewarded(self.score);
                (r.0, second.1 + r.1)
            } else {
                (a, Seq::empty())
            }
        }
    }

    /// The player meets adversary `i`. An eaten adversary, or one on
    /// another square, does nothing. A vulnerable one is eaten: its points
    /// are won, the next catch is worth twice as much, and the adversary
    /// is dead and no longer vulnerable. Any other kills the player.
    pub open spec fn collide(self, i: int) -> (GameView, Seq<Event>) {
        let g = self.ghosts[i];
        if g.state != GhostState::Dead && g.pos == self.player.pos {
            if g.edible_duration == 0 {
                (GameView { player: Player { dead: true, ..self.player }, ..self }, Seq::empty())
            } else {
                (
                    GameView {
                        score: self.score.saturating_add(self.next_ghost_score),
                        next_ghost_score: self.next_ghost_score.saturating_add(
                            self.next_ghost_score,
                        ),
                        ghosts: self.ghosts.update(
                            i,
                            Adversary { state: GhostState::Dead, edible_duration: 0, ..g },
                        ),
                        ..self
                    },
                    seq![Event::GhostEaten(self.next_ghost_score)],
                )
            }
        } else {
            (self, Seq::empty())
        }
    }

    /// The player meets the first `k` adversaries, one after the other.
    pub open spec fn collide_first(self, k: nat) -> (GameView, Seq<Event>)
        decreases k,
    {
        if k == 0 {
            (self, Seq::empty())
        } else {
            let before = self.collide_first((k - 1) as nat);
            let last = before.0.collide(k - 1);
            (last.0, before.1 + last.1)
        }
    }

    /// The player meets all four adversaries, one after the other.
    pub open spec fn check_player_vs_ghosts(self) -> (GameView, Seq<Event>) {
        self.collide_first(4)
    }

    /// The adversaries' part of a tick: each takes its step by its own
    /// roll. What they aim at is fixed before the first of them moves.
    pub open spec fn update_ghosts(self, telaps: u128, rolls: Seq<u8>) -> GameView {
        GameView {
            ghosts: Seq::new(
                4,
                |i: int|
                    stepped(
                        self.ghosts[i],
                        Role::of_index(i),
                        self.board,
                        self.player,
                        self.ghosts[1].pos,
                        self.period(),
                        self.level,
                        telaps,
                        rolls[i],
                    ),
            ),
            ..self
        }
    }

    /// The clocks' part of a tick: the time of the level goes on, up to
    /// what the clock can hold, and the time of the fruit runs down, to
    /// nothing at the least.
    pub open spec fn update_fruit(self, telaps: u128) -> GameView {
        GameView {
            timecum: self.timecum.saturating_add(telaps),
            fruit_duration: self.fruit_duration.saturating_sub(telaps),
            ..self
        }
    }

    /// One tick of `dur` milliseconds: the player moves, meets the
    /// adversaries, the adversaries move, the player meets them again, and
    /// the clocks go on.
    pub open spec fn update(self, dur: u128, rolls: Seq<u8>) -> (GameView, Seq<Event>) {
        let a = self.update_player(dur);
        let b = a.0.check_player_vs_ghosts();
        let c = b.0.update_ghosts(dur, rolls);
        let d = c.check_player_vs_ghosts();
        (d.0.update_fruit(dur), a.1 + b.1 + d.1)
    }

    /// What a tick comes to. A dead player ends the life. Else a dot
    /// counter at nothing ends the level. Else, at `FIRST_FRUIT_AT` and at
    /// `SECOND_FRUIT_AT`, the fruit shows for as long as the roll says, and
    /// that takes one fruit token off the dot counter.
    pub open spec fn settle(self, roll: u128) -> (GameView, Seq<Event>) {
        if self.player.dead {
            (self, seq![Event::PlayerDied])
        } else if self.dots_left == 0 {
            (self, seq![Event::LevelComplete])
        } else if self.dots_left == SECOND_FRUIT_AT || self.dots_left == FIRST_FRUIT_AT {
            (
                GameView {
                    fruit_duration: spec_fruit_window(roll),
                    dots_left: (self.dots_left - 1) as usize,
                    fruit_tokens: (self.fruit_tokens - 1) as usize,
                    ..self
                },
                Seq::empty(),
            )
        } else {
            (self, Seq::empty())
        }
    }

    /// The state in which the rolls of a tick are drawn: the player has
    /// moved and met the adversaries, and these have yet to move.
    pub open spec fn at_the_rolls(self, dur: u128) -> GameView {
        self.update_player(dur).0.check_player_vs_ghosts().0
    }

    /// Each of the four rolls suits the state of its adversary.
    pub open spec fn rolls_suit(self, rolls: Seq<u8>) -> bool {
        &&& rolls.len() == 4
        &&& forall|i: int| 0 <= i < 4 ==> roll_suits(self.ghosts[i].state, #[trigger] rolls[i])
    }

    /// The fruit is due: the player lives and the dot counter is at one of
    /// the two marks.
    pub open spec fn fruit_due(self) -> bool {
        !self.player.dead && (self.dots_left == SECOND_FRUIT_AT || self.dots_left
            == FIRST_FRUIT_AT)
    }

    /// Number of rolls that a tick takes: one for each adversary that is
    /// not eaten when the rolls are drawn, and one for the fruit where it
    /// is due at the end.
    pub open spec fn rolls_of_step(self, dur: u128, rolls: Seq<u8>) -> nat {
        rolls_due(self.at_the_rolls(dur).ghosts, 4) + if self.update(dur, rolls).0.fruit_due() {
            1nat
        } else {
            0nat
        }
    }

    /// One tick and what it comes to.
    pub open spec fn step(self, dur: u128, rolls: Seq<u8>, fruit_roll: u128) -> (
        GameView,
        Seq<Event>,
    ) {
        let a = self.update(dur, rolls);
        let b = a.0.settle(fruit_roll);
        (b.0, a.1 + b.1)
    }

    /// The input of a tick is obeyed: a direction is noted for the
    /// player's next move, and the cheat frightens the adversaries as a
    /// pill does.
    pub open spec fn handle_input(self, input: InputEvent) -> (GameView, Command) {
        match input {
            InputEvent::Direction(d) => (
                GameView { player: Player { last_input_direction: d, ..self.player }, ..self },
                Command::Proceed,
            ),
            InputEvent::Cheat => (self.ghosts_are_edible(self.pill_duration), Command::Proceed),
            InputEvent::Quit => (self, Command::Quit),
            InputEvent::Pause => (self, Command::Pause),
            InputEvent::Idle => (self, Command::Proceed),
        }
    }

    /// Milliseconds that the host lets pass before a tick: fewer at higher
    /// levels, and twenty fewer while an adversary is vulnerable.
    pub open spec fn frame_delay(self) -> u64 {
        let base: u64 = if self.level == 0 {
            140
        } else if self.level <= 3 {
            130
        } else {
            120
        };
        if exists|i: int| 0 <= i < self.ghosts.len() && (#[trigger] self.ghosts[i]).vulnerable() {
            (base - 20) as u64
        } else {
            base
        }
    }

    /// The start of a life on `board`: the player on its start square and
    /// the adversaries at home.
    pub open spec fn respawned(self) -> GameView {
        GameView {
            player: Player {
                pos: self.board.pacman_start,
                dead: false,
                last_input_direction: Direction::Left,
                moving: Direction::Left,
                anim_frame: 0,
                timecum: 0,
            },
            ..self
        }.reset_ghosts()
    }

    /// The board is new and full: the dot counter holds its dots and the
    /// fruit tokens.
    pub open spec fn repopulate_board(self, board: BoardView) -> GameView {
        GameView {
            board,
            dots_left: (count(board.grid, Square::Dot) + FRUIT_TOKENS) as usize,
            fruit_tokens: FRUIT_TOKENS,
            ..self
        }
    }

    /// The next level on its new board: a new life, and the clock of the
    /// level at nothing.
    pub open spec fn next_level(self, board: BoardView) -> GameView {
        GameView {
            level: self.level.saturating_add(1),
            timecum: 0,
            ..self
        }.repopulate_board(board).respawned()
    }

    /// A life is lost: with none in store the game is over and nothing
    /// changes; else one is taken from the store and a new life starts.
    pub open spec fn lose_life(self) -> (GameView, bool) {
        if self.lives == 0 {
            (self, false)
        } else {
            (GameView { lives: (self.lives - 1) as u32, ..self }.respawned(), true)
        }
    }

    /// A new game on `board`.
    pub open spec fn fresh(board: BoardView, level: u32) -> GameView {
        GameView {
            board,
            player: Player {
                pos: board.pacman_start,
                dead: false,
                last_input_direction: Direction::Left,
                moving: Direction::Left,
                anim_frame: 0,
                timecum: 0,
            },
            ghosts: Seq::empty(),
            timecum: 0,
            dots_left: 0,
            fruit_tokens: 0,
            score: 0,
            high_score: FIRST_HIGH_SCORE,
            lives: FIRST_LIVES,
            level,
            pill_duration: PILL_MS,
            fruit_duration: 0,
            next_ghost_score: 0,
        }.repopulate_board(board).respawned()
    }
}

} // verus!
