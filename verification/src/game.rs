//! The game: the board, the player, the four adversaries and the counters,
//! advanced one tick at a time.

use crate::board::{chars_of, follows, lemma_count_bound, lemma_count_positive,
    lemma_valid_landmarks, tiles_of, Board};
use crate::bonus::{fruit_window, level2bonus};
use crate::dice::{drawn_after, random_u128, random_u8, random_usize, Dice};
use crate::event::{Command, Event, InputEvent};
use crate::geometry::{Direction, Position};
use crate::ghost::{Adversary, GhostState};
use crate::maze::{spec_chart, spec_dots, spec_layout};
use crate::model::{frightened, placed, roll_suits, rolls_due, stepped, wander_direction,
    GameView, DOT_SCORE, EXTRA_LIFE_SCORE, FIRST_FRUIT_AT, FIRST_GHOST_SCORE, FIRST_HIGH_SCORE,
    FIRST_LIVES, FRUIT_TOKENS, MAX_LIVES, PILL_MS, PILL_SCORE, SECOND_FRUIT_AT};
use crate::period::{period_at, Period};
use crate::player::Player;
use crate::pursuit::{chase_target, scatter_corner, Role};
use crate::soundness::{lemma_collide_valid, lemma_ghosts_are_edible_valid,
    lemma_handle_input_valid, lemma_move_player_valid, lemma_restarts_valid,
    lemma_settle_valid, lemma_stepped_placed, lemma_update_ghosts_valid};
use crate::square::Square;
use vstd::prelude::*;

verus! {

/// The direction in which a roll sends an adversary at home.
pub fn wander(roll: u8) -> (d: Direction)
    ensures
        d == wander_direction(roll),
{
    match roll % 4 {
        0 => Direction::Left,
        1 => Direction::Right,
        2 => Direction::Up,
        _ => Direction::Down,
    }
}

/// One adversary's step of a tick, by the roll that was drawn for it. At
/// home the roll picks the direction of the wander, on a gate the heading
/// on leaving, and outside the house it decides whether the adversary is
/// slowed down.
pub fn step_adversary(
    g: Adversary,
    role: Role,
    board: &Board,
    player: &Player,
    ambusher: Position,
    period: Period,
    level: u32,
    telaps: u128,
    roll: u8,
) -> (r: Adversary)
    requires
        board.wf(),
        placed(g, board@),
        board@.inner(player.pos),
    ensures
        r == stepped(g, role, board@, *player, ambusher, period, level, telaps, roll),
        placed(r, board@),
        r.edible_duration == if g.edible_duration >= telaps {
            g.edible_duration - telaps
        } else {
            0
        },
{
    proof {
        lemma_stepped_placed(g, role, board@, *player, ambusher, period, level, telaps, roll);
        lemma_valid_landmarks(board@);
    }
    let mut g = g;
    g.edible_duration = g.edible_duration.saturating_sub(telaps);
    match g.state {
        GhostState::Home => {
            let pos = g.pos.go(wander(roll));
            match board.at(pos) {
                Square::House => {
                    g.direction = Direction::Left;
                    g.pos = pos;
                },
                Square::Gate => {
                    g.state = GhostState::Gateway;
                    g.direction = Direction::Left;
                    g.pos = pos;
                },
                _ => {},
            }
        },
        GhostState::Gateway => {
            g.state = GhostState::Outside;
            g.direction = if roll % 2 == 0 {
                Direction::Left
            } else {
                Direction::Right
            };
            g.pos = g.pos.go(Direction::Up);
        },
        GhostState::Dead => {
            if g.pos == board.gate1() || g.pos == board.gate2() {
                g.state = GhostState::Home;
                g.pos = g.pos.go(Direction::Down);
            } else if g.pos == board.front_of_gate1() || g.pos == board.front_of_gate2() {
                g.direction = Direction::Down;
                g.pos = g.pos.go(Direction::Down);
            } else {
                let target = if g.pos.dist_city(board.front_of_gate2()) < g.pos.dist_city(
                    board.front_of_gate1(),
                ) {
                    board.front_of_gate2()
                } else {
                    board.front_of_gate1()
                };
                let m = g.moves(board, target);
                g.direction = m.0;
                g.pos = m.1;
            }
        },
        GhostState::Outside => {
            let in_tunnel = board.at(g.pos) == Square::Tunnel;
            if !g.slow_with(level, in_tunnel, roll) {
                let height = board.height();
                let target = if g.edible_duration > 0 {
                    player.pos
                } else {
                    match period {
                        Period::Chase => chase_target(
                            role,
                            player.pos,
                            player.moving,
                            ambusher,
                            g.pos,
                            height,
                        ),
                        Period::Scatter => scatter_corner(role, height),
                    }
                };
                let m = g.moves(board, target);
                g.direction = m.0;
                g.pos = m.1;
            }
        },
    }
    g
}

/// Makes every adversary outside the house or on a gate vulnerable for
/// `duration` milliseconds longer.
fn frighten(ghosts: &mut [Adversary; 4], duration: u128)
    ensures
        final(ghosts)@ == Seq::new(4, |i: int| frightened(old(ghosts)@[i], duration)),
{
    let mut i: usize = 0;
    while i < 4
        invariant
            0 <= i <= 4,
            forall|j: int| 0 <= j < i ==> ghosts@[j] == frightened(old(ghosts)@[j], duration),
            forall|j: int| i <= j < 4 ==> ghosts@[j] == old(ghosts)@[j],
        decreases 4 - i,
    {
        let mut g = ghosts[i];
        if g.state == GhostState::Outside || g.state == GhostState::Gateway {
            g.edible_duration = g.edible_duration.saturating_add(duration);
        }
        ghosts[i] = g;
        i = i + 1;
    }
    assert(ghosts@ =~= Seq::new(4, |i: int| frightened(old(ghosts)@[i], duration)));
}

/// The four adversaries at home on the start squares of a board.
fn spawn(board: &Board) -> (ghosts: [Adversary; 4])
    ensures
        ghosts@ == Seq::new(
            4,
            |i: int|
                Adversary {
                    pos: board@.ghost_start[i],
                    direction: Direction::Left,
                    edible_duration: 0,
                    state: GhostState::Home,
                },
        ),
{
    let start = board.ghost_start();
    let ghosts = [
        Adversary::new(start[0]),
        Adversary::new(start[1]),
        Adversary::new(start[2]),
        Adversary::new(start[3]),
    ];
    assert(ghosts@ =~= Seq::new(
        4,
        |i: int|
            Adversary {
                pos: board@.ghost_start[i],
                direction: Direction::Left,
                edible_duration: 0,
                state: GhostState::Home,
            },
    ));
    ghosts
}

/// A game in progress.
pub struct Game {
    board: Board,
    player: Player,
    ghosts: [Adversary; 4],
    timecum: u128,
    dots_left: usize,
    fruit_tokens: usize,
    score: u32,
    high_score: u32,
    lives: u32,
    level: u32,
    pill_duration: u128,
    fruit_duration: u128,
    next_ghost_score: u32,
}

impl View for Game {
    type V = GameView;

    closed spec fn view(&self) -> GameView {
        GameView {
            board: self.board@,
            player: self.player,
            ghosts: self.ghosts@,
            timecum: self.timecum,
            dots_left: self.dots_left,
            fruit_tokens: self.fruit_tokens,
            score: self.score,
            high_score: self.high_score,
            lives: self.lives,
            level: self.level,
            pill_duration: self.pill_duration,
            fruit_duration: self.fruit_duration,
            next_ghost_score: self.next_ghost_score,
        }
    }
}

impl Game {
    /// The invariant of every game that this module hands out.
    pub open spec fn wf(&self) -> bool {
        self@.valid()
    }

    /// A new game on `board`, at level `level`: three lives, no points,
    /// the player on its start square and the adversaries at home.
    pub fn with_board(board: Board, level: u32) -> (g: Game)
        requires
            board.wf(),
        ensures
            g.wf(),
            g@ == GameView::fresh(board@, level),
    {
        proof {
            lemma_restarts_valid(GameView::fresh(board@, level), board@, level);
            lemma_count_bound(board@.grid, Square::Dot);
        }
        let player = Player::new(&board);
        let ghosts = spawn(&board);
        let dots = board.dots();
        Game {
            board,
            player,
            ghosts,
            timecum: 0,
            dots_left: dots + FRUIT_TOKENS,
            fruit_tokens: FRUIT_TOKENS,
            score: 0,
            high_score: FIRST_HIGH_SCORE,
            lives: FIRST_LIVES,
            level,
            pill_duration: PILL_MS,
            fruit_duration: 0,
            next_ghost_score: 0,
        }
    }

    /// A new game on the built-in maze of the first level.
    pub fn new() -> (g: Game)
        ensures
            g.wf(),
            g@ == GameView::fresh(g@.board, 0),
            g@.board.grid == tiles_of(chars_of(spec_layout(0))),
            follows(g@.board, spec_chart(0)),
            g@.dots_left == spec_dots(0) + FRUIT_TOKENS,
    {
        Game::with_board(Board::new(0), 0)
    }

    /// Puts the four adversaries back on their start squares, at home and
    /// not vulnerable.
    pub fn reset_ghosts(&mut self)
        requires
            old(self).wf(),
        ensures
            final(self).wf(),
            final(self)@ == old(self)@.reset_ghosts(),
    {
        proof {
            lemma_restarts_valid(self@, self@.board, 0);
        }
        self.ghosts = spawn(&self.board);
    }

    /// The phase that the schedule is in.
    pub fn period(&self) -> (p: Period)
        ensures
            p == self@.period(),
    {
        period_at(self.level, self.timecum)
    }

    /// Makes every adversary outside the house or on a gate vulnerable for
    /// `duration` milliseconds longer.
    pub fn ghosts_are_edible(&mut self, duration: u128)
        requires
            old(self).wf(),
        ensures
            final(self).wf(),
            final(self)@ == old(self)@.ghosts_are_edible(duration),
    {
        proof {
            lemma_ghosts_are_edible_valid(self@, duration);
        }
        frighten(&mut self.ghosts, duration);
    }

    /// The player tries to enter square `pos`. Returns whether it did, and
    /// what happened on the way.
    pub fn move_player(&mut self, pos: Position) -> (r: (bool, Vec<Event>))
        requires
            old(self).wf(),
        ensures
            final(self).wf(),
            final(self)@ == old(self)@.move_player(pos).0,
            r.1@ == old(self)@.move_player(pos).1,
            r.0 == old(self)@.move_player(pos).2,
    {
        proof {
            lemma_move_player_valid(self@, pos);
        }
        let mut events: Vec<Event> = Vec::new();
        match self.board.get(pos) {
            None => (false, events),
            Some(tile) => match tile {
                Square::Dot => {
                    proof {
                        lemma_count_positive(self@.board.grid, Square::Dot, pos.0 as int);
                    }
                    self.board.consume(pos);
                    self.score = self.score.saturating_add(DOT_SCORE);
                    self.dots_left = self.dots_left - 1;
                    self.player.pos = pos;
                    (true, events)
                },
                Square::Pill => {
                    self.board.consume(pos);
                    frighten(&mut self.ghosts, self.pill_duration);
                    self.score = self.score.saturating_add(PILL_SCORE);
                    self.next_ghost_score = FIRST_GHOST_SCORE;
                    self.player.pos = pos;
                    events.push(Event::PillEaten);
                    assert(events@ =~= seq![Event::PillEaten]);
                    (true, events)
                },
                Square::Fruit => {
                    if self.fruit_duration > 0 {
                        let bonus = level2bonus(self.level).1;
                        self.score = self.score.saturating_add(bonus);
                        self.fruit_duration = 0;
                        events.push(Event::FruitEaten(bonus));
                        assert(events@ =~= seq![Event::FruitEaten(bonus)]);
                    }
                    self.player.pos = pos;
                    (true, events)
                },
                Square::Empty | Square::Tunnel | Square::Start => {
                    self.player.pos = pos;
                    (true, events)
                },
                Square::Wall | Square::Gate | Square::House => (false, events),
            },
        }
    }

    /// Grants what a move of the player has earned: one more life where
    /// the score has just reached `EXTRA_LIFE_SCORE`, and a high score that
    /// keeps up with the score.
    fn reward(&mut self, score_before: u32) -> (events: Vec<Event>)
        ensures
            final(self)@ == old(self)@.rewarded(score_before).0,
            events@ == old(self)@.rewarded(score_before).1,
    {
        let mut events: Vec<Event> = Vec::new();
        if score_before < EXTRA_LIFE_SCORE && self.score >= EXTRA_LIFE_SCORE && self.lives
            < MAX_LIVES {
            self.lives = self.lives + 1;
            events.push(Event::ExtraLifeGranted);
            assert(events@ =~= seq![Event::ExtraLifeGranted]);
        }
        if self.score > self.high_score {
            self.high_score = self.score;
        }
        events
    }

    /// The player's part of a tick of `telaps` milliseconds.
    pub fn update_player(&mut self, telaps: u128) -> (events: Vec<Event>)
        requires
            old(self).wf(),
        ensures
            final(self).wf(),
            final(self)@ == old(self)@.update_player(telaps).0,
            events@ == old(self)@.update_player(telaps).1,
    {
        self.player.animate(telaps);
        let score_before = self.score;
        let wish = self.player.last_input_direction;
        let ghost a = self@;
        assert(a == (GameView { player: old(self)@.player.animated(telaps), ..old(self)@ }));
        assert(a.valid());
        let (moved, mut events) = self.move_player(self.player.pos.go(wish));
        if moved {
            self.player.moving = wish;
        } else {
            let (moved, more) = self.move_player(self.player.pos.go(self.player.moving));
            if !moved {
                return more;
            }
            events = more;
        }
        let ghost b = self@;
        let mut more = self.reward(score_before);
        proof {
            assert(self@.valid()) by {
                assert(b.valid());
                assert(self@.board == b.board);
                assert(self@.ghosts == b.ghosts);
            }
        }
        events.append(&mut more);
        events
    }

    /// The player meets the four adversaries, one after the other.
    pub fn check_player_vs_ghosts(&mut self) -> (events: Vec<Event>)
        requires
            old(self).wf(),
        ensures
            final(self).wf(),
            final(self)@ == old(self)@.check_player_vs_ghosts().0,
            events@ == old(self)@.check_player_vs_ghosts().1,
    {
        let mut events: Vec<Event> = Vec::new();
        let mut i: usize = 0;
        while i < 4
            invariant
                0 <= i <= 4,
                self.wf(),
                self@ == old(self)@.collide_first(i as nat).0,
                events@ == old(self)@.collide_first(i as nat).1,
            decreases 4 - i,
        {
            proof {
                lemma_collide_valid(self@, i as int);
            }
            let ghost before = self@;
            let ghost seen = events@;
            let g = self.ghosts[i];
            if g.state != GhostState::Dead && g.pos == self.player.pos {
                if g.edible_duration == 0 {
                    self.player.dead = true;
                } else {
                    let points = self.next_ghost_score;
                    self.score = self.score.saturating_add(points);
                    events.push(Event::GhostEaten(points));
                    self.next_ghost_score = points.saturating_add(points);
                    let mut eaten = g;
                    eaten.state = GhostState::Dead;
                    eaten.edible_duration = 0;
                    self.ghosts[i] = eaten;
                }
            }
            assert(self@ =~= before.collide(i as int).0);
            assert(events@ =~= seen + before.collide(i as int).1);
            i = i + 1;
        }
        events
    }

    /// The clocks' part of a tick of `telaps` milliseconds.
    pub fn update_fruit(&mut self, telaps: u128)
        requires
            old(self).wf(),
        ensures
            final(self).wf(),
            final(self)@ == old(self)@.update_fruit(telaps),
    {
        self.timecum = self.timecum.saturating_add(telaps);
        self.fruit_duration = self.fruit_duration.saturating_sub(telaps);
    }

    /// The adversaries' part of a tick of `telaps` milliseconds, each
    /// adversary by the roll that was drawn for it.
    pub fn update_ghosts_with(&mut self, telaps: u128, rolls: [u8; 4])
        requires
            old(self).wf(),
        ensures
            final(self).wf(),
            final(self)@ == old(self)@.update_ghosts(telaps, rolls@),
    {
        proof {
            lemma_update_ghosts_valid(self@, telaps, rolls@);
        }
        let ambusher = self.ghosts[1].pos;
        let period = self.period();
        let ghost before = self@;
        let mut i: usize = 0;
        while i < 4
            invariant
                0 <= i <= 4,
                before.valid(),
                before == old(self)@,
                ambusher == before.ghosts[1].pos,
                period == before.period(),
                self@.board == before.board,
                self.board.wf(),
                self@ == (GameView { ghosts: self@.ghosts, ..before }),
                self@.ghosts.len() == 4,
                forall|j: int|
                    0 <= j < i ==> self@.ghosts[j] == stepped(
                        before.ghosts[j],
                        Role::of_index(j),
                        before.board,
                        before.player,
                        ambusher,
                        period,
                        before.level,
                        telaps,
                        rolls@[j],
                    ),
                forall|j: int| i <= j < 4 ==> self@.ghosts[j] == before.ghosts[j],
            decreases 4 - i,
        {
            let role = match Role::from_index(i) {
                Some(role) => role,
                None => Role::Drifter,
            };
            assert(placed(before.ghosts[i as int], before.board));
            let g = step_adversary(
                self.ghosts[i],
                role,
                &self.board,
                &self.player,
                ambusher,
                period,
                self.level,
                telaps,
                rolls[i],
            );
            self.ghosts[i] = g;
            i = i + 1;
        }
        assert(self@ =~= before.update_ghosts(telaps, rolls@));
    }

    /// Draws the rolls of a tick from the thread-local generator: for an
    /// adversary at home one of four directions, for one on a gate or
    /// outside the house a byte, and none for an eaten one.
    fn draw_rolls(&self) -> (rolls: [u8; 4])
        ensures
            self@.rolls_suit(rolls@),
    {
        let mut rolls: [u8; 4] = [0, 0, 0, 0];
        let mut i: usize = 0;
        while i < 4
            invariant
                0 <= i <= 4,
                forall|j: int|
                    0 <= j < i ==> roll_suits(self@.ghosts[j].state, #[trigger] rolls@[j]),
            decreases 4 - i,
        {
            let roll: u8 = match self.ghosts[i].state {
                GhostState::Home => (random_usize() % 4) as u8,
                GhostState::Gateway => random_u8(),
                GhostState::Outside => random_u8(),
                GhostState::Dead => 0,
            };
            rolls[i] = roll;
            i = i + 1;
        }
        rolls
    }

    /// Draws the rolls of a tick from `dice`, in the same way. Each
    /// adversary that is not eaten takes one roll from the dice.
    fn draw_rolls_by(&self, dice: &mut Dice) -> (rolls: [u8; 4])
        ensures
            self@.rolls_suit(rolls@),
            final(dice).spec_seed() == old(dice).spec_seed(),
            final(dice).spec_drawn() == drawn_after(
                old(dice).spec_drawn(),
                rolls_due(self@.ghosts, 4),
            ),
    {
        let mut rolls: [u8; 4] = [0, 0, 0, 0];
        let mut i: usize = 0;
        while i < 4
            invariant
                0 <= i <= 4,
                forall|j: int|
                    0 <= j < i ==> roll_suits(self@.ghosts[j].state, #[trigger] rolls@[j]),
                dice.spec_seed() == old(dice).spec_seed(),
                dice.spec_drawn() == drawn_after(
                    old(dice).spec_drawn(),
                    rolls_due(self@.ghosts, i as nat),
                ),
            decreases 4 - i,
        {
            let roll: u8 = match self.ghosts[i].state {
                GhostState::Home => (dice.roll_usize() % 4) as u8,
                GhostState::Gateway => dice.roll_u8(),
                GhostState::Outside => dice.roll_u8(),
                GhostState::Dead => 0,
            };
            rolls[i] = roll;
            i = i + 1;
        }
        rolls
    }

    /// Whether the fruit is due: the player lives and the dot counter is
    /// at one of the two marks.
    pub fn fruit_due(&self) -> (due: bool)
        ensures
            due == self@.fruit_due(),
    {
        !self.player.dead && (self.dots_left == SECOND_FRUIT_AT || self.dots_left
            == FIRST_FRUIT_AT)
    }

    /// The part of a tick before the adversaries move: the player moves
    /// and meets the adversaries.
    fn before_rolls(&mut self, dur: u128) -> (events: Vec<Event>)
        requires
            old(self).wf(),
        ensures
            final(self).wf(),
            final(self)@ == old(self)@.update_player(dur).0.check_player_vs_ghosts().0,
            events@ == old(self)@.update_player(dur).1 + old(self)@.update_player(
                dur,
            ).0.check_player_vs_ghosts().1,
    {
        let mut events = self.update_player(dur);
        let mut met = self.check_player_vs_ghosts();
        events.append(&mut met);
        events
    }

    /// The part of a tick from the move of the adversaries on, by the
    /// rolls that were drawn: the adversaries move, the player meets them
    /// again, and the clocks go on.
    fn after_rolls(&mut self, dur: u128, rolls: [u8; 4]) -> (events: Vec<Event>)
        requires
            old(self).wf(),
        ensures
            final(self).wf(),
            final(self)@ == old(self)@.update_ghosts(dur, rolls@).check_player_vs_ghosts().0
                .update_fruit(dur),
            events@ == old(self)@.update_ghosts(dur, rolls@).check_player_vs_ghosts().1,
    {
        self.update_ghosts_with(dur, rolls);
        let events = self.check_player_vs_ghosts();
        self.update_fruit(dur);
        events
    }

    /// The adversaries' part of a tick, with rolls that are drawn here
    /// and suit the states of the adversaries.
    pub fn update_ghosts(&mut self, telaps: u128)
        requires
            old(self).wf(),
        ensures
            final(self).wf(),
            exists|rolls: Seq<u8>|
                old(self)@.rolls_suit(rolls) && final(self)@ == old(self)@.update_ghosts(
                    telaps,
                    rolls,
                ),
    {
        let rolls = self.draw_rolls();
        self.update_ghosts_with(telaps, rolls);
        assert(old(self)@.rolls_suit(rolls@));
    }

    /// One tick of `dur` milliseconds, each adversary by the roll that was
    /// drawn for it. Returns what happened.
    pub fn update_with(&mut self, dur: u128, rolls: [u8; 4]) -> (events: Vec<Event>)
        requires
            old(self).wf(),
        ensures
            final(self).wf(),
            final(self)@ == old(self)@.update(dur, rolls@).0,
            events@ == old(self)@.update(dur, rolls@).1,
    {
        let mut events = self.before_rolls(dur);
        let mut more = self.after_rolls(dur, rolls);
        events.append(&mut more);
        events
    }

    /// One tick of `dur` milliseconds, with rolls that are drawn from the
    /// thread-local generator when the adversaries are about to move.
    pub fn update(&mut self, dur: u128) -> (events: Vec<Event>)
        requires
            old(self).wf(),
        ensures
            final(self).wf(),
            exists|rolls: Seq<u8>|
                old(self)@.at_the_rolls(dur).rolls_suit(rolls) && final(self)@ == old(
                    self,
                )@.update(dur, rolls).0 && events@ == old(self)@.update(dur, rolls).1,
    {
        let mut events = self.before_rolls(dur);
        let rolls = self.draw_rolls();
        let mut more = self.after_rolls(dur, rolls);
        events.append(&mut more);
        assert(old(self)@.at_the_rolls(dur).rolls_suit(rolls@));
        assert(self@ == old(self)@.update(dur, rolls@).0);
        assert(events@ == old(self)@.update(dur, rolls@).1);
        events
    }

    /// One tick of `dur` milliseconds, with rolls that are drawn from
    /// `dice` when the adversaries are about to move.
    pub fn update_by(&mut self, dur: u128, dice: &mut Dice) -> (events: Vec<Event>)
        requires
            old(self).wf(),
        ensures
            final(self).wf(),
            exists|rolls: Seq<u8>|
                old(self)@.at_the_rolls(dur).rolls_suit(rolls) && final(self)@ == old(
                    self,
                )@.update(dur, rolls).0 && events@ == old(self)@.update(dur, rolls).1,
            final(dice).spec_seed() == old(dice).spec_seed(),
            final(dice).spec_drawn() == drawn_after(
                old(dice).spec_drawn(),
                rolls_due(old(self)@.at_the_rolls(dur).ghosts, 4),
            ),
    {
        let mut events = self.before_rolls(dur);
        let rolls = self.draw_rolls_by(dice);
        let mut more = self.after_rolls(dur, rolls);
        events.append(&mut more);
        assert(old(self)@.at_the_rolls(dur).rolls_suit(rolls@));
        assert(self@ == old(self)@.update(dur, rolls@).0);
        assert(events@ == old(self)@.update(dur, rolls@).1);
        events
    }

    /// What a tick comes to, by the roll that was drawn for the fruit.
    pub fn settle_with(&mut self, roll: u128) -> (events: Vec<Event>)
        requires
            old(self).wf(),
        ensures
            final(self).wf(),
            final(self)@ == old(self)@.settle(roll).0,
            events@ == old(self)@.settle(roll).1,
    {
        proof {
            lemma_settle_valid(self@, roll);
        }
        let mut events: Vec<Event> = Vec::new();
        if self.player.dead {
            events.push(Event::PlayerDied);
            assert(events@ =~= seq![Event::PlayerDied]);
        } else if self.dots_left == 0 {
            events.push(Event::LevelComplete);
            assert(events@ =~= seq![Event::LevelComplete]);
        } else if self.dots_left == SECOND_FRUIT_AT || self.dots_left == FIRST_FRUIT_AT {
            self.fruit_duration = fruit_window(roll);
            self.dots_left = self.dots_left - 1;
            self.fruit_tokens = self.fruit_tokens - 1;
        }
        events
    }

    /// What a tick comes to. The roll for the fruit is drawn from the
    /// thread-local generator where the fruit is due.
    pub fn settle(&mut self) -> (events: Vec<Event>)
        requires
            old(self).wf(),
        ensures
            final(self).wf(),
            exists|roll: u128|
                final(self)@ == old(self)@.settle(roll).0 && events@ == old(self)@.settle(roll).1,
    {
        let roll: u128 = if self.fruit_due() {
            random_u128()
        } else {
            0
        };
        let events = self.settle_with(roll);
        assert(self@ == old(self)@.settle(roll).0 && events@ == old(self)@.settle(roll).1);
        events
    }

    /// One tick and what it comes to, by the rolls that were drawn.
    pub fn step_with(&mut self, dur: u128, rolls: [u8; 4], fruit_roll: u128) -> (events: Vec<
        Event,
    >)
        requires
            old(self).wf(),
        ensures
            final(self).wf(),
            final(self)@ == old(self)@.step(dur, rolls@, fruit_roll).0,
            events@ == old(self)@.step(dur, rolls@, fruit_roll).1,
    {
        let mut events = self.update_with(dur, rolls);
        let mut last = self.settle_with(fruit_roll);
        events.append(&mut last);
        events
    }

    /// One tick and what it comes to, with rolls that are drawn from the
    /// thread-local generator.
    pub fn step(&mut self, dur: u128) -> (events: Vec<Event>)
        requires
            old(self).wf(),
        ensures
            final(self).wf(),
            exists|rolls: Seq<u8>, fruit_roll: u128|
                old(self)@.at_the_rolls(dur).rolls_suit(rolls) && final(self)@ == old(self)@.step(
                    dur,
                    rolls,
                    fruit_roll,
                ).0 && events@ == old(self)@.step(dur, rolls, fruit_roll).1,
    {
        let mut events = self.before_rolls(dur);
        let rolls = self.draw_rolls();
        let mut more = self.after_rolls(dur, rolls);
        events.append(&mut more);
        let fruit_roll: u128 = if self.fruit_due() {
            random_u128()
        } else {
            0
        };
        let mut last = self.settle_with(fruit_roll);
        events.append(&mut last);
        assert(old(self)@.at_the_rolls(dur).rolls_suit(rolls@));
        assert(self@ == old(self)@.step(dur, rolls@, fruit_roll).0);
        assert(events@ == old(self)@.step(dur, rolls@, fruit_roll).1);
        events
    }

    /// One tick and what it comes to, with rolls that are drawn from
    /// `dice`. Two games that start alike and take their rolls from dice of
    /// the same seed go the same way.
    pub fn step_by(&mut self, dur: u128, dice: &mut Dice) -> (events: Vec<Event>)
        requires
            old(self).wf(),
        ensures
            final(self).wf(),
            final(dice).spec_seed() == old(dice).spec_seed(),
            exists|rolls: Seq<u8>, fruit_roll: u128|
                old(self)@.at_the_rolls(dur).rolls_suit(rolls) && final(self)@ == old(self)@.step(
                    dur,
                    rolls,
                    fruit_roll,
                ).0 && events@ == old(self)@.step(dur, rolls, fruit_roll).1
                    && final(dice).spec_drawn() == drawn_after(
                    old(dice).spec_drawn(),
                    old(self)@.rolls_of_step(dur, rolls),
                ),
    {
        let mut events = self.before_rolls(dur);
        let rolls = self.draw_rolls_by(dice);
        let mut more = self.after_rolls(dur, rolls);
        events.append(&mut more);
        let fruit_roll: u128 = if self.fruit_due() {
            dice.roll_u128()
        } else {
            0
        };
        let mut last = self.settle_with(fruit_roll);
        events.append(&mut last);
        assert(old(self)@.at_the_rolls(dur).rolls_suit(rolls@));
        assert(self@ == old(self)@.step(dur, rolls@, fruit_roll).0);
        assert(events@ == old(self)@.step(dur, rolls@, fruit_roll).1);
        events
    }

    /// Obeys the input of a tick and says what the host is to do.
    pub fn handle_input(&mut self, input: InputEvent) -> (c: Command)
        requires
            old(self).wf(),
        ensures
            final(self).wf(),
            final(self)@ == old(self)@.handle_input(input).0,
            c == old(self)@.handle_input(input).1,
    {
        proof {
            lemma_handle_input_valid(self@, input);
        }
        match input {
            InputEvent::Direction(d) => {
                self.player.last_input_direction = d;
                Command::Proceed
            },
            InputEvent::Cheat => {
                frighten(&mut self.ghosts, self.pill_duration);
                Command::Proceed
            },
            InputEvent::Quit => Command::Quit,
            InputEvent::Pause => Command::Pause,
            InputEvent::Idle => Command::Proceed,
        }
    }

    /// Milliseconds that the host lets pass before the next tick.
    pub fn frame_delay(&self) -> (ms: u64)
        requires
            self.wf(),
        ensures
            ms == self@.frame_delay(),
    {
        let base: u64 = if self.level == 0 {
            140
        } else if self.level <= 3 {
            130
        } else {
            120
        };
        let mut any = false;
        let mut i: usize = 0;
        while i < 4
            invariant
                0 <= i <= 4,
                self@.ghosts.len() == 4,
                any == exists|j: int| 0 <= j < i && (#[trigger] self@.ghosts[j]).vulnerable(),
            decreases 4 - i,
        {
            if self.ghosts[i].edible_duration > 0 {
                any = true;
            }
            i = i + 1;
        }
        if any {
            base - 20
        } else {
            base
        }
    }

    /// Starts the next level on its built-in maze, with a new life and the
    /// clock of the level at nothing.
    pub fn next_level(&mut self)
        requires
            old(self).wf(),
        ensures
            final(self).wf(),
            final(self)@ == old(self)@.next_level(final(self)@.board),
            final(self)@.board.grid == tiles_of(
                chars_of(spec_layout(old(self)@.level.saturating_add(1))),
            ),
            follows(final(self)@.board, spec_chart(old(self)@.level.saturating_add(1))),
            final(self)@.dots_left == spec_dots(old(self)@.level.saturating_add(1)) + FRUIT_TOKENS,
    {
        let level = self.level.saturating_add(1);
        let board = Board::new(level);
        proof {
            lemma_restarts_valid(self@, board@, level);
            lemma_count_bound(board@.grid, Square::Dot);
        }
        self.level = level;
        self.timecum = 0;
        self.dots_left = board.dots() + FRUIT_TOKENS;
        self.fruit_tokens = FRUIT_TOKENS;
        self.player = Player::new(&board);
        self.ghosts = spawn(&board);
        self.board = board;
    }

    /// Takes a life after the player has died. Returns whether the game
    /// goes on: with no life in store it is over and nothing changes.
    pub fn lose_life(&mut self) -> (goes_on: bool)
        requires
            old(self).wf(),
        ensures
            final(self).wf(),
            final(self)@ == old(self)@.lose_life().0,
            goes_on == old(self)@.lose_life().1,
    {
        proof {
            lemma_restarts_valid(self@, self@.board, 0);
        }
        if self.lives == 0 {
            return false;
        }
        self.lives = self.lives - 1;
        self.player = Player::new(&self.board);
        self.ghosts = spawn(&self.board);
        true
    }
    /// The board.
    pub fn board(&self) -> (b: &Board)
        ensures
            b@ == self@.board,
    {
        &self.board
    }

    /// The player.
    pub fn player(&self) -> (p: Player)
        ensures
            p == self@.player,
    {
        self.player
    }

    /// The four adversaries, by slot.
    pub fn ghosts(&self) -> (a: [Adversary; 4])
        ensures
            a@ == self@.ghosts,
    {
        self.ghosts
    }

    /// Milliseconds into the level.
    pub fn timecum(&self) -> (t: u128)
        ensures
            t == self@.timecum,
    {
        self.timecum
    }

    /// The dot counter: the dots that are left plus the fruit tokens that
    /// are left.
    pub fn dots_left(&self) -> (n: usize)
        ensures
            n == self@.dots_left,
    {
        self.dots_left
    }

    /// The fruit tokens that are left.
    pub fn fruit_tokens(&self) -> (n: usize)
        ensures
            n == self@.fruit_tokens,
    {
        self.fruit_tokens
    }

    /// The score.
    pub fn score(&self) -> (n: u32)
        ensures
            n == self@.score,
    {
        self.score
    }

    /// The high score.
    pub fn high_score(&self) -> (n: u32)
        ensures
            n == self@.high_score,
    {
        self.high_score
    }

    /// The lives in store.
    pub fn lives(&self) -> (n: u32)
        ensures
            n == self@.lives,
    {
        self.lives
    }

    /// The level, counted from nothing.
    pub fn level(&self) -> (n: u32)
        ensures
            n == self@.level,
    {
        self.level
    }

    /// Milliseconds of vulnerability that a pill grants.
    pub fn pill_duration(&self) -> (ms: u128)
        ensures
            ms == self@.pill_duration,
    {
        self.pill_duration
    }

    /// Milliseconds for which the fruit still shows.
    pub fn fruit_duration(&self) -> (ms: u128)
        ensures
            ms == self@.fruit_duration,
    {
        self.fruit_duration
    }

    /// Points for the adversary that is eaten next.
    pub fn next_ghost_score(&self) -> (n: u32)
        ensures
            n == self@.next_ghost_score,
    {
        self.next_ghost_score
    }

    /// Puts the player in the given state, if its square and the four
    /// squares around it are on the grid. Returns whether it did.
    pub fn set_player(&mut self, player: Player) -> (done: bool)
        requires
            old(self).wf(),
        ensures
            final(self).wf(),
            done == old(self)@.board.inner(player.pos),
            final(self)@ == if done {
                GameView { player, ..old(self)@ }
            } else {
                old(self)@
            },
    {
        if self.board.is_inner(player.pos) {
            self.player = player;
            true
        } else {
            false
        }
    }

    /// Puts the adversary of slot `slot` in the given state, if the slot
    /// is one of the four, its square and the four squares around it are
    /// on the grid, and an adversary that is leaving stands on a gate.
    /// Returns whether it did.
    pub fn set_ghost(&mut self, slot: usize, ghost: Adversary) -> (done: bool)
        requires
            old(self).wf(),
        ensures
            final(self).wf(),
            done == (slot < 4 && placed(ghost, old(self)@.board)),
            final(self)@ == if done {
                GameView { ghosts: old(self)@.ghosts.update(slot as int, ghost), ..old(self)@ }
            } else {
                old(self)@
            },
    {
        if slot < 4 && self.board.is_inner(ghost.pos) && (ghost.state != GhostState::Gateway
            || self.board.at(ghost.pos) == Square::Gate) {
            let ghost before = self@;
            self.ghosts[slot] = ghost;
            proof {
                assert forall|i: int| 0 <= i < 4 implies placed(
                    #[trigger] self@.ghosts[i],
                    self@.board,
                ) by {
                    assert(placed(before.ghosts[i], before.board));
                }
            }
            true
        } else {
            false
        }
    }

    /// Sets the milliseconds of vulnerability that a pill grants.
    pub fn set_pill_duration(&mut self, ms: u128)
        requires
            old(self).wf(),
        ensures
            final(self).wf(),
            final(self)@ == (GameView { pill_duration: ms, ..old(self)@ }),
    {
        self.pill_duration = ms;
    }

    /// Sets the milliseconds for which the fruit still shows.
    pub fn set_fruit_duration(&mut self, ms: u128)
        requires
            old(self).wf(),
        ensures
            final(self).wf(),
            final(self)@ == (GameView { fruit_duration: ms, ..old(self)@ }),
    {
        self.fruit_duration = ms;
    }

    /// Sets the clock of the level.
    pub fn set_timecum(&mut self, ms: u128)
        requires
            old(self).wf(),
        ensures
            final(self).wf(),
            final(self)@ == (GameView { timecum: ms, ..old(self)@ }),
    {
        self.timecum = ms;
    }

    /// Sets the score.
    pub fn set_score(&mut self, score: u32)
        requires
            old(self).wf(),
        ensures
            final(self).wf(),
            final(self)@ == (GameView { score, ..old(self)@ }),
    {
        self.score = score;
    }

    /// Sets the lives in store.
    pub fn set_lives(&mut self, lives: u32)
        requires
            old(self).wf(),
        ensures
            final(self).wf(),
            final(self)@ == (GameView { lives, ..old(self)@ }),
    {
        self.lives = lives;
    }
}

} // verus!
