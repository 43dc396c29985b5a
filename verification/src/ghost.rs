//! The adversaries: their state, the chance of being slowed down, and the
//! greedy pathfinder.

use crate::board::Board;
use crate::dice::{pct_with, random_u8, spec_pct_with};
use crate::geometry::{Direction, Position};
use crate::square::Square;
use vstd::prelude::*;

verus! {

/// Where an adversary is in its life cycle.
#[derive(Debug, Copy, Clone, PartialEq, Eq, Structural)]
pub enum GhostState {
    /// Wandering inside the house.
    Home,
    /// Standing on a gate, about to leave.
    Gateway,
    /// Roaming the maze.
    Outside,
    /// Eaten, on its way back to the house.
    Dead,
}

/// One adversary.
#[derive(Debug, Copy, Clone, PartialEq, Eq, Structural)]
pub struct Adversary {
    pub pos: Position,
    pub state: GhostState,
    /// Milliseconds for which the adversary stays vulnerable.
    pub edible_duration: u128,
    /// The direction of its last move.
    pub direction: Direction,
}

/// The order in which the pathfinder looks at the four directions.
pub open spec fn search_order() -> Seq<Direction> {
    seq![Direction::Right, Direction::Left, Direction::Down, Direction::Up]
}

/// The chance in per cent of skipping a tick, by level tier, tunnel and
/// vulnerability.
pub open spec fn spec_slow_chance(level: u32, in_tunnel: bool, vulnerable: bool) -> u8 {
    if level == 0 {
        if in_tunnel || vulnerable {
            60
        } else {
            25
        }
    } else if level <= 3 {
        if in_tunnel {
            55
        } else if vulnerable {
            50
        } else {
            15
        }
    } else {
        if in_tunnel {
            50
        } else if vulnerable {
            45
        } else {
            5
        }
    }
}

/// The chance in per cent that an adversary skips a tick. A tunnel and
/// vulnerability raise it, higher levels lower it.
#[verifier::when_used_as_spec(spec_slow_chance)]
pub fn slow_chance(level: u32, in_tunnel: bool, vulnerable: bool) -> (n: u8)
    ensures
        n == spec_slow_chance(level, in_tunnel, vulnerable),
        0 < n < 100,
{
    if level == 0 {
        if in_tunnel || vulnerable {
            60
        } else {
            25
        }
    } else if level <= 3 {
        if in_tunnel {
            55
        } else if vulnerable {
            50
        } else {
            15
        }
    } else {
        if in_tunnel {
            50
        } else if vulnerable {
            45
        } else {
            5
        }
    }
}

impl Adversary {
    /// Whether the adversary can be eaten.
    pub open spec fn vulnerable(self) -> bool {
        self.edible_duration > 0
    }

    /// Whether a roll slows the adversary down on this tick.
    pub open spec fn spec_slow_with(self, level: u32, in_tunnel: bool, roll: u8) -> bool {
        spec_pct_with(roll, spec_slow_chance(level, in_tunnel, self.vulnerable()))
    }

    /// A direction that the pathfinder may take on `grid`: the square
    /// there is open, and the step does not undo the last move unless the
    /// adversary is vulnerable.
    pub open spec fn legal(self, grid: Seq<Square>, d: Direction) -> bool {
        &&& self.pos.can_go(d)
        &&& self.pos.spec_go(d).0 < grid.len()
        &&& grid[self.pos.spec_go(d).0 as int].spec_is_open()
        &&& (self.vulnerable() || d != self.direction.spec_opposite())
    }

    /// Manhattan distance from `target` to the square one step in `d`.
    pub open spec fn reach(self, target: Position, d: Direction) -> int {
        target.spec_dist_city(self.pos.spec_go(d))
    }

    /// Whether distance `a` is strictly preferred to `b`: the larger one
    /// when fleeing, the smaller one otherwise.
    pub open spec fn prefers(self, a: int, b: int) -> bool {
        if self.vulnerable() {
            a > b
        } else {
            a < b
        }
    }

    /// The best legal direction among the first `k` of the search order,
    /// the earlier one where two are equally good.
    pub open spec fn pick(self, grid: Seq<Square>, target: Position, k: nat) -> Option<Direction>
        decreases k,
    {
        if k == 0 || k > 4 {
            None
        } else {
            let before = self.pick(grid, target, (k - 1) as nat);
            let d = search_order()[k - 1];
            if !self.legal(grid, d) {
                before
            } else {
                match before {
                    None => Some(d),
                    Some(b) => if self.prefers(self.reach(target, d), self.reach(target, b)) {
                        Some(d)
                    } else {
                        before
                    },
                }
            }
        }
    }

    /// The move of the pathfinder: the best legal direction and the square
    /// there, or the last direction and the present square where no
    /// direction is legal.
    pub open spec fn spec_moves(self, grid: Seq<Square>, target: Position) -> (
        Direction,
        Position,
    ) {
        match self.pick(grid, target, 4) {
            Some(d) => (d, self.pos.spec_go(d)),
            None => (self.direction, self.pos),
        }
    }

    /// An adversary at home on square `pos`, facing left and not
    /// vulnerable.
    pub fn new(pos: Position) -> (g: Adversary)
        ensures
            g == (Adversary {
                pos,
                direction: Direction::Left,
                edible_duration: 0,
                state: GhostState::Home,
            }),
    {
        Adversary { pos, direction: Direction::Left, edible_duration: 0, state: GhostState::Home }
    }

    /// Decides by the roll that was drawn whether the adversary skips this
    /// tick.
    pub fn slow_with(&self, level: u32, in_tunnel: bool, roll: u8) -> (b: bool)
        ensures
            b == self.spec_slow_with(level, in_tunnel, roll),
    {
        pct_with(roll, slow_chance(level, in_tunnel, self.edible_duration > 0))
    }

    /// Draws a roll and decides by it whether the adversary skips this
    /// tick.
    pub fn slow(&self, level: u32, in_tunnel: bool) -> (b: bool)
        ensures
            exists|roll: u8| b == self.spec_slow_with(level, in_tunnel, roll),
    {
        let roll = random_u8();
        let b = self.slow_with(level, in_tunnel, roll);
        assert(b == self.spec_slow_with(level, in_tunnel, roll));
        b
    }

    /// The greedy pathfinder. Of the directions right, left, down and up
    /// it keeps those that lead to an open square and do not undo the last
    /// move (a vulnerable adversary may turn back). It takes the one that
    /// brings it nearest to `target`, or farthest from it when vulnerable;
    /// of equally good ones the first. With no direction left it stays.
    pub fn moves(&self, board: &Board, target: Position) -> (r: (Direction, Position))
        requires
            board.wf(),
            board@.inner(self.pos),
        ensures
            r == self.spec_moves(board@.grid, target),
            !self.vulnerable() ==> r.0 != self.direction.spec_opposite(),
            r.1 == self.pos || (r.1 == self.pos.spec_go(r.0) && board@.grid[r.1.0 as int]
                .spec_is_open()),
    {
        proof {
            lemma_pick_best(*self, board@.grid, target, 4);
        }
        let order = [Direction::Right, Direction::Left, Direction::Down, Direction::Up];
        let vulnerable = self.edible_duration > 0;
        let back = self.direction.opposite();
        let mut best: Option<(Direction, Position, usize)> = None;
        let mut k: usize = 0;
        assert(order@ =~= search_order());
        while k < 4
            invariant
                0 <= k <= 4,
                order@ == search_order(),
                board.wf(),
                board@.inner(self.pos),
                vulnerable == self.vulnerable(),
                back == self.direction.spec_opposite(),
                match best {
                    Some((d, p, n)) => self.pick(board@.grid, target, k as nat) == Some(d) && p
                        == self.pos.spec_go(d) && n == self.reach(target, d),
                    None => self.pick(board@.grid, target, k as nat) is None,
                },
            decreases 4 - k,
        {
            let d = order[k];
            assert(d == search_order()[k as int]);
            let p = self.pos.go(d);
            if board.at(p).is_open() && (vulnerable || d != back) {
                let n = target.dist_city(p);
                match best {
                    None => {
                        best = Some((d, p, n));
                    },
                    Some((_, _, m)) => {
                        if (vulnerable && n > m) || (!vulnerable && n < m) {
                            best = Some((d, p, n));
                        }
                    },
                }
            }
            k = k + 1;
        }
        match best {
            Some((d, p, _)) => (d, p),
            None => (self.direction, self.pos),
        }
    }
}

/// What the pathfinder takes is legal, no legal direction is strictly
/// better, and every legal direction that is looked at earlier is strictly
/// worse.
pub proof fn lemma_pick_best(g: Adversary, grid: Seq<Square>, target: Position, k: nat)
    requires
        k <= 4,
    ensures
        match g.pick(grid, target, k) {
            Some(d) => exists|i: int|
                0 <= i < k && #[trigger] search_order()[i] == d && g.legal(grid, d) && (forall|
                    j: int,
                |
                    0 <= j < k && g.legal(grid, #[trigger] search_order()[j]) ==> !g.prefers(
                        g.reach(target, search_order()[j]),
                        g.reach(target, d),
                    )) && (forall|j: int|
                    0 <= j < i && g.legal(grid, #[trigger] search_order()[j]) ==> g.prefers(
                        g.reach(target, d),
                        g.reach(target, search_order()[j]),
                    )),
            None => forall|j: int| 0 <= j < k ==> !g.legal(grid, #[trigger] search_order()[j]),
        },
    decreases k,
{
    if k > 0 {
        lemma_pick_best(g, grid, target, (k - 1) as nat);
        let d = search_order()[k - 1];
        let before = g.pick(grid, target, (k - 1) as nat);
        if g.legal(grid, d) {
            match before {
                None => {
                    assert(search_order()[k - 1] == d);
                },
                Some(b) => {
                    if g.prefers(g.reach(target, d), g.reach(target, b)) {
                        assert(search_order()[k - 1] == d);
                    } else {
                    }
                },
            }
        }
    }
}

/// An adversary that is not vulnerable never turns back: the direction
/// that the pathfinder gives is not the reverse of the last move, also
/// where no direction is legal and the adversary stays.
pub proof fn lemma_never_reverses(g: Adversary, grid: Seq<Square>, target: Position)
    requires
        !g.vulnerable(),
    ensures
        g.spec_moves(grid, target).0 != g.direction.spec_opposite(),
        g.spec_moves(grid, target).1 == g.pos || g.spec_moves(grid, target).1 == g.pos.spec_go(
            g.spec_moves(grid, target).0,
        ),
{
    lemma_pick_best(g, grid, target, 4);
}

} // verus!
