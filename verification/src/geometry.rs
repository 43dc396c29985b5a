//! Grid geometry: directions, row-major positions, wraparound and distances.

use vstd::prelude::*;

verus! {

/// Number of columns of every maze.
pub const WIDTH: usize = 28;

/// One of the four moves on the grid.
#[derive(Debug, Copy, Clone, Hash, PartialEq, Eq, PartialOrd, Ord, Structural)]
pub enum Direction {
    Up,
    Down,
    Left,
    Right,
}

impl Direction {
    /// The direction that undoes `self`.
    pub open spec fn spec_opposite(&self) -> Direction {
        match self {
            Direction::Right => Direction::Left,
            Direction::Left => Direction::Right,
            Direction::Down => Direction::Up,
            Direction::Up => Direction::Down,
        }
    }

    /// `Up` and `Down` swap, `Left` and `Right` swap.
    #[verifier::when_used_as_spec(spec_opposite)]
    pub fn opposite(&self) -> (r: Direction)
        ensures
            r == self.spec_opposite(),
    {
        match self {
            Direction::Right => Direction::Left,
            Direction::Left => Direction::Right,
            Direction::Down => Direction::Up,
            Direction::Up => Direction::Down,
        }
    }
}

/// Absolute difference of two integers.
pub open spec fn gap(a: int, b: int) -> int {
    if a >= b {
        a - b
    } else {
        b - a
    }
}

/// A square of the grid, held as its row-major index.
#[derive(Debug, Copy, Clone, PartialEq, Eq, Structural)]
pub struct Position(pub usize);

impl Position {
    /// Column of the square.
    pub open spec fn spec_col(&self) -> int {
        self.0 as int % WIDTH as int
    }

    /// Row of the square.
    pub open spec fn spec_row(&self) -> int {
        self.0 as int / WIDTH as int
    }

    /// Manhattan distance between two squares.
    pub open spec fn spec_dist_city(&self, other: Position) -> int {
        gap(self.spec_col(), other.spec_col()) + gap(self.spec_row(), other.spec_row())
    }

    /// Squared Euclidean distance between two squares.
    pub open spec fn spec_dist_sqr(&self, other: Position) -> int {
        gap(self.spec_col(), other.spec_col()) * gap(self.spec_col(), other.spec_col()) + gap(
            self.spec_row(),
            other.spec_row(),
        ) * gap(self.spec_row(), other.spec_row())
    }

    /// Index of the square halfway between two squares, column and row
    /// each rounded down.
    pub open spec fn spec_average(self, other: Position) -> int {
        (self.spec_row() + other.spec_row()) / 2 * WIDTH as int + (self.spec_col()
            + other.spec_col()) / 2
    }

    /// Index reached by one step, before any bound is applied.
    pub open spec fn step(self, direction: Direction) -> int {
        match direction {
            Direction::Right => if self.spec_col() == WIDTH - 1 {
                self.0 - (WIDTH - 1)
            } else {
                self.0 + 1
            },
            Direction::Left => if self.spec_col() == 0 {
                self.0 + (WIDTH - 1)
            } else {
                self.0 - 1
            },
            Direction::Down => self.0 + WIDTH,
            Direction::Up => self.0 - WIDTH,
        }
    }

    /// The step stays within the indices a machine word can hold. For `Up`
    /// this means that the square is not in the first row.
    pub open spec fn can_go(self, direction: Direction) -> bool {
        0 <= self.step(direction) <= usize::MAX
    }

    /// The square one step away. Horizontal steps wrap around within the
    /// row; vertical steps never wrap.
    pub open spec fn spec_go(&self, direction: Direction) -> Position {
        Position(self.step(direction) as usize)
    }

    /// The square in column `col` of row `row`.
    pub fn from_xy(col: usize, row: usize) -> (p: Position)
        requires
            row * WIDTH + col <= usize::MAX,
        ensures
            p.0 == row * WIDTH + col,
    {
        Position(row * WIDTH + col)
    }

    /// Column of the square.
    pub fn col(&self) -> (c: usize)
        ensures
            c == self.spec_col(),
            c < WIDTH,
    {
        self.0 % WIDTH
    }

    /// Row of the square.
    pub fn row(&self) -> (r: usize)
        ensures
            r == self.spec_row(),
            r * WIDTH + self.spec_col() == self.0,
    {
        self.0 / WIDTH
    }

    /// Manhattan distance to `other`.
    pub fn dist_city(&self, other: Position) -> (d: usize)
        ensures
            d == self.spec_dist_city(other),
    {
        let (c1, c2): (usize, usize) = (self.col(), other.col());
        let (r1, r2): (usize, usize) = (self.row(), other.row());
        let dc: usize = if c1 >= c2 {
            c1 - c2
        } else {
            c2 - c1
        };
        let dr: usize = if r1 >= r2 {
            r1 - r2
        } else {
            r2 - r1
        };
        dc + dr
    }

    /// Squared Euclidean distance to `other`.
    pub fn dist_sqr(&self, other: Position) -> (d: usize)
        requires
            self.spec_dist_sqr(other) <= usize::MAX,
        ensures
            d == self.spec_dist_sqr(other),
    {
        let (c1, c2): (usize, usize) = (self.col(), other.col());
        let (r1, r2): (usize, usize) = (self.row(), other.row());
        let dc: usize = if c1 >= c2 {
            c1 - c2
        } else {
            c2 - c1
        };
        let dr: usize = if r1 >= r2 {
            r1 - r2
        } else {
            r2 - r1
        };
        assert(0 <= dc * dc <= 27 * 27) by (nonlinear_arith)
            requires
                0 <= dc <= 27,
        ;
        assert(0 <= dr * dr) by (nonlinear_arith);
        dc * dc + dr * dr
    }

    /// The square halfway between `self` and `other`.
    pub fn average(&self, other: Position) -> (p: Position)
        ensures
            p.0 == self.spec_average(other),
            p.spec_col() == (self.spec_col() + other.spec_col()) / 2,
            p.spec_row() == (self.spec_row() + other.spec_row()) / 2,
    {
        let (c1, c2): (usize, usize) = (self.col(), other.col());
        let (r1, r2): (usize, usize) = (self.row(), other.row());
        let c: usize = (c1 + c2) / 2;
        let r: usize = (r1 + r2) / 2;
        proof {
            if r1 == r2 {
                assert(r == r1);
                assert(c <= c1 || c <= c2);
            } else if r1 < r2 {
                assert(r < r2);
                assert((r + 1) * WIDTH <= r2 * WIDTH) by (nonlinear_arith)
                    requires
                        r + 1 <= r2,
                ;
            } else {
                assert(r < r1);
                assert((r + 1) * WIDTH <= r1 * WIDTH) by (nonlinear_arith)
                    requires
                        r + 1 <= r1,
                ;
            }
            assert(r * WIDTH + c <= usize::MAX);
        }
        Position::from_xy(c, r)
    }

    /// One step in `direction`, wrapping at the left and right edges.
    #[verifier::when_used_as_spec(spec_go)]
    pub fn go(&self, direction: Direction) -> (p: Position)
        requires
            self.can_go(direction),
        ensures
            p == self.spec_go(direction),
    {
        match direction {
            Direction::Right => {
                if self.col() == WIDTH - 1 {
                    Position(self.0 - (WIDTH - 1))
                } else {
                    Position(self.0 + 1)
                }
            },
            Direction::Left => {
                if self.col() == 0 {
                    Position(self.0 + (WIDTH - 1))
                } else {
                    Position(self.0 - 1)
                }
            },
            Direction::Down => Position(self.0 + WIDTH),
            Direction::Up => Position(self.0 - WIDTH),
        }
    }
}

/// A step followed by the opposite step leads back to the start. This
/// holds for the wrapping moves at the side edges as well.
pub proof fn lemma_go_back(p: Position, d: Direction)
    requires
        p.can_go(d),
    ensures
        p.spec_go(d).can_go(d.spec_opposite()),
        p.spec_go(d).spec_go(d.spec_opposite()) == p,
{
}

/// A horizontal step keeps the row; a vertical step keeps the column and
/// changes the row by one.
pub proof fn lemma_go_coordinates(p: Position, d: Direction)
    requires
        p.can_go(d),
    ensures
        match d {
            Direction::Right => p.spec_go(d).spec_row() == p.spec_row() && p.spec_go(d).spec_col()
                == (if p.spec_col() == WIDTH - 1 {
                0
            } else {
                p.spec_col() + 1
            }),
            Direction::Left => p.spec_go(d).spec_row() == p.spec_row() && p.spec_go(d).spec_col()
                == (if p.spec_col() == 0 {
                WIDTH - 1
            } else {
                p.spec_col() - 1
            }),
            Direction::Down => p.spec_go(d).spec_row() == p.spec_row() + 1 && p.spec_go(
                d,
            ).spec_col() == p.spec_col(),
            Direction::Up => p.spec_go(d).spec_row() == p.spec_row() - 1 && p.spec_go(d).spec_col()
                == p.spec_col(),
        },
{
}

} // verus!
