//! The maze of one level: a validated grid of tiles and the landmarks that
//! are derived from it.

use crate::geometry::{Direction, Position, WIDTH};
use crate::maze::{layout, lemma_layouts_playable, spec_chart, spec_dots, spec_layout};
use crate::square::Square;
use vstd::prelude::*;
use vstd::string::*;

verus! {

/// Why a grid is not a playable maze.
#[derive(Debug, Copy, Clone, PartialEq, Eq, Structural)]
pub enum BoardError {
    /// The declared width is not `WIDTH`, a row is not `WIDTH` characters
    /// long, or the grid is not made of whole rows.
    WrongWidth,
    /// A layout character that the legend does not know.
    UnknownTile,
    /// A machine word cannot index the four rows below the grid, where the
    /// target of a pursuit may lie.
    TooLarge,
    /// Not exactly two `Gate` tiles.
    GateCount,
    /// Not exactly one `Fruit` tile.
    FruitCount,
    /// Not exactly one `Start` tile.
    StartCount,
    /// No `House` tile.
    NoHouse,
    /// A tile other than `Wall` in the first or last row, or a `Gate` next
    /// to one of these rows.
    NotEnclosed,
}

/// Number of tiles of `kind` in `grid`.
pub open spec fn count(grid: Seq<Square>, kind: Square) -> nat
    decreases grid.len(),
{
    if grid.len() == 0 {
        0
    } else {
        count(grid.drop_last(), kind) + if grid.last() == kind {
            1nat
        } else {
            0nat
        }
    }
}

/// `first` and `second` are where the first two tiles of `kind` lie, as far
/// as `n` says that there are any; where `n` is at most two, there are no
/// others.
pub open spec fn marks(grid: Seq<Square>, kind: Square, n: int, first: int, second: int) -> bool {
    &&& n >= 1 ==> 0 <= first < grid.len() && grid[first] == kind
    &&& n >= 2 ==> first < second < grid.len() && grid[second] == kind
    &&& n <= 2 ==> forall|j: int|
        0 <= j < grid.len() ==> (#[trigger] grid[j] == kind <==> (n >= 1 && j == first) || (n >= 2
            && j == second))
}

/// All four neighbours of square `i` lie on a grid of `len` squares.
pub open spec fn inner(len: int, i: int) -> bool {
    WIDTH <= i < len - WIDTH
}

/// Every tile that is not a `Wall` has its four neighbours on the grid,
/// and so have the squares above and below a `Gate`.
pub open spec fn enclosed(grid: Seq<Square>) -> bool {
    forall|i: int|
        0 <= i < grid.len() ==> (#[trigger] grid[i] != Square::Wall ==> inner(
            grid.len() as int,
            i,
        )) && (grid[i] == Square::Gate ==> inner(grid.len() as int, i - WIDTH) && inner(
            grid.len() as int,
            i + WIDTH,
        ))
}

/// Columns `c0..=c1` and rows `r0..=r1` are the smallest box that holds
/// every `House` tile.
pub open spec fn house_box(grid: Seq<Square>, c0: int, c1: int, r0: int, r1: int) -> bool {
    &&& forall|i: int|
        0 <= i < grid.len() && #[trigger] grid[i] == Square::House ==> c0 <= i % (WIDTH as int)
            <= c1 && r0 <= i / (WIDTH as int) <= r1
    &&& exists|i: int|
        0 <= i < grid.len() && #[trigger] grid[i] == Square::House && i % (WIDTH as int) == c0
    &&& exists|i: int|
        0 <= i < grid.len() && #[trigger] grid[i] == Square::House && i % (WIDTH as int) == c1
    &&& exists|i: int|
        0 <= i < grid.len() && #[trigger] grid[i] == Square::House && i / (WIDTH as int) == r0
    &&& exists|i: int|
        0 <= i < grid.len() && #[trigger] grid[i] == Square::House && i / (WIDTH as int) == r1
}

/// The first reason for which a grid of the declared `width` is refused,
/// or `None` for a playable maze.
pub open spec fn layout_error(grid: Seq<Square>, width: int) -> Option<BoardError> {
    if width != WIDTH || grid.len() % (WIDTH as nat) != 0 {
        Some(BoardError::WrongWidth)
    } else if grid.len() + 4 * WIDTH > usize::MAX {
        Some(BoardError::TooLarge)
    } else if count(grid, Square::Gate) != 2 {
        Some(BoardError::GateCount)
    } else if count(grid, Square::Fruit) != 1 {
        Some(BoardError::FruitCount)
    } else if count(grid, Square::Start) != 1 {
        Some(BoardError::StartCount)
    } else if count(grid, Square::House) == 0 {
        Some(BoardError::NoHouse)
    } else if !enclosed(grid) {
        Some(BoardError::NotEnclosed)
    } else {
        None
    }
}

/// What a board is to its users: the grid and the landmarks.
#[verifier::ext_equal]
pub struct BoardView {
    pub grid: Seq<Square>,
    pub gate1: Position,
    pub gate2: Position,
    pub front_of_gate1: Position,
    pub front_of_gate2: Position,
    pub fruit: Position,
    pub pacman_start: Position,
    pub ghost_start: Seq<Position>,
}

impl BoardView {
    /// Number of rows.
    pub open spec fn height(self) -> int {
        self.grid.len() as int / WIDTH as int
    }

    /// The square is on the grid.
    pub open spec fn holds(self, p: Position) -> bool {
        p.0 < self.grid.len()
    }

    /// The square and its four neighbours are on the grid.
    pub open spec fn inner(self, p: Position) -> bool {
        inner(self.grid.len() as int, p.0 as int)
    }

    /// The grid is a playable maze and the landmarks are those of the
    /// grid: the two gates in scan order, the squares above them, the
    /// fruit, the start, and the corners of the box around the house.
    pub open spec fn valid(self) -> bool {
        &&& layout_error(self.grid, WIDTH as int) is None
        &&& marks(self.grid, Square::Gate, 2, self.gate1.0 as int, self.gate2.0 as int)
        &&& self.front_of_gate1.0 == self.gate1.0 - WIDTH
        &&& self.front_of_gate2.0 == self.gate2.0 - WIDTH
        &&& marks(self.grid, Square::Fruit, 1, self.fruit.0 as int, 0)
        &&& marks(self.grid, Square::Start, 1, self.pacman_start.0 as int, 0)
        &&& self.ghost_start.len() == 4
        &&& house_box(
            self.grid,
            self.ghost_start[0].spec_col(),
            self.ghost_start[3].spec_col(),
            self.ghost_start[0].spec_row(),
            self.ghost_start[3].spec_row(),
        )
        &&& self.ghost_start[1].0 == self.ghost_start[0].spec_row() * WIDTH
            + self.ghost_start[3].spec_col()
        &&& self.ghost_start[2].0 == self.ghost_start[3].spec_row() * WIDTH
            + self.ghost_start[0].spec_col()
    }

    /// The grid after the player has entered square `i`: a `Dot` or a
    /// `Pill` there is gone.
    pub open spec fn eaten(self, i: int) -> BoardView {
        if 0 <= i < self.grid.len() && (self.grid[i] == Square::Dot || self.grid[i]
            == Square::Pill) {
            BoardView { grid: self.grid.update(i, Square::Empty), ..self }
        } else {
            self
        }
    }
}

/// Appending one tile adds one to the count of its kind and nothing to the
/// others.
pub proof fn lemma_count_step(grid: Seq<Square>, kind: Square, i: int)
    requires
        0 <= i < grid.len(),
    ensures
        count(grid.take(i + 1), kind) == count(grid.take(i), kind) + if grid[i] == kind {
            1nat
        } else {
            0nat
        },
{
    assert(grid.take(i + 1).drop_last() =~= grid.take(i));
}

/// A grid holds at most as many tiles of a kind as it has squares.
pub proof fn lemma_count_bound(grid: Seq<Square>, kind: Square)
    ensures
        count(grid, kind) <= grid.len(),
    decreases grid.len(),
{
    if grid.len() > 0 {
        lemma_count_bound(grid.drop_last(), kind);
    }
}

/// A tile of the kind that is counted makes the count positive.
pub proof fn lemma_count_positive(grid: Seq<Square>, kind: Square, i: int)
    requires
        0 <= i < grid.len(),
        grid[i] == kind,
    ensures
        count(grid, kind) >= 1,
    decreases grid.len(),
{
    if i < grid.len() - 1 {
        lemma_count_positive(grid.drop_last(), kind, i);
    }
}

/// Replacing one tile takes one from the count of the old kind and adds one
/// to that of the new.
pub proof fn lemma_count_update(grid: Seq<Square>, i: int, tile: Square, kind: Square)
    requires
        0 <= i < grid.len(),
    ensures
        count(grid.update(i, tile), kind) + (if grid[i] == kind {
            1nat
        } else {
            0nat
        }) == count(grid, kind) + (if tile == kind {
            1nat
        } else {
            0nat
        }),
    decreases grid.len(),
{
    if i == grid.len() - 1 {
        assert(grid.update(i, tile).drop_last() =~= grid.drop_last());
    } else {
        assert(grid.update(i, tile).drop_last() =~= grid.drop_last().update(i, tile));
        lemma_count_update(grid.drop_last(), i, tile, kind);
    }
}

/// A grid with no more than two tiles of a kind, at the squares that are
/// marked, holds as many of the kind as are marked.
pub proof fn lemma_count_marks(grid: Seq<Square>, kind: Square, n: int, first: int, second: int)
    requires
        0 <= n <= 2,
        marks(grid, kind, n, first, second),
    ensures
        count(grid, kind) == n,
{
    lemma_count_prefix(grid, kind, n, first, second, grid.len() as int);
    assert(grid.take(grid.len() as int) =~= grid);
}

/// The count of a kind among the first `i` squares is the number of marked
/// squares among them.
proof fn lemma_count_prefix(
    grid: Seq<Square>,
    kind: Square,
    n: int,
    first: int,
    second: int,
    i: int,
)
    requires
        0 <= n <= 2,
        marks(grid, kind, n, first, second),
        0 <= i <= grid.len(),
    ensures
        count(grid.take(i), kind) == (if n >= 1 && first < i {
            1nat
        } else {
            0nat
        }) + (if n >= 2 && second < i {
            1nat
        } else {
            0nat
        }),
    decreases i,
{
    if i == 0 {
        assert(grid.take(0) =~= Seq::<Square>::empty());
    } else {
        lemma_count_prefix(grid, kind, n, first, second, i - 1);
        lemma_count_step(grid, kind, i - 1);
        assert(grid[i - 1] == kind <==> (n >= 1 && i - 1 == first) || (n >= 2 && i - 1 == second));
    }
}

/// Eating keeps a valid board valid, and takes one `Dot` from the count
/// where a `Dot` was eaten.
pub proof fn lemma_eaten_valid(v: BoardView, i: int)
    requires
        v.valid(),
    ensures
        v.eaten(i).valid(),
        v.eaten(i).grid.len() == v.grid.len(),
        count(v.eaten(i).grid, Square::Dot) + (if 0 <= i < v.grid.len() && v.grid[i]
            == Square::Dot {
            1nat
        } else {
            0nat
        }) == count(v.grid, Square::Dot),
{
    if 0 <= i < v.grid.len() && (v.grid[i] == Square::Dot || v.grid[i] == Square::Pill) {
        let w = v.eaten(i);
        lemma_count_update(v.grid, i, Square::Empty, Square::Gate);
        lemma_count_update(v.grid, i, Square::Empty, Square::Fruit);
        lemma_count_update(v.grid, i, Square::Empty, Square::Start);
        lemma_count_update(v.grid, i, Square::Empty, Square::House);
        lemma_count_update(v.grid, i, Square::Empty, Square::Dot);
        assert(enclosed(w.grid)) by {
            assert forall|j: int| 0 <= j < w.grid.len() implies (#[trigger] w.grid[j]
                != Square::Wall ==> inner(w.grid.len() as int, j)) && (w.grid[j] == Square::Gate
                ==> inner(w.grid.len() as int, j - WIDTH) && inner(
                w.grid.len() as int,
                j + WIDTH,
            )) by {
                assert(v.grid[j] != Square::Wall ==> inner(v.grid.len() as int, j));
            }
        }
        let c0 = v.ghost_start[0].spec_col();
        let c1 = v.ghost_start[3].spec_col();
        let r0 = v.ghost_start[0].spec_row();
        let r1 = v.ghost_start[3].spec_row();
        assert(house_box(w.grid, c0, c1, r0, r1)) by {
            let a = choose|k: int|
                0 <= k < v.grid.len() && #[trigger] v.grid[k] == Square::House && k % (
                WIDTH as int) == c0;
            assert(w.grid[a] == Square::House);
            let b = choose|k: int|
                0 <= k < v.grid.len() && #[trigger] v.grid[k] == Square::House && k % (
                WIDTH as int) == c1;
            assert(w.grid[b] == Square::House);
            let c = choose|k: int|
                0 <= k < v.grid.len() && #[trigger] v.grid[k] == Square::House && k / (
                WIDTH as int) == r0;
            assert(w.grid[c] == Square::House);
            let d = choose|k: int|
                0 <= k < v.grid.len() && #[trigger] v.grid[k] == Square::House && k / (
                WIDTH as int) == r1;
            assert(w.grid[d] == Square::House);
            assert forall|k: int|
                0 <= k < w.grid.len() && #[trigger] w.grid[k] == Square::House implies c0 <= k % (
                WIDTH as int) <= c1 && r0 <= k / (WIDTH as int) <= r1 by {
                assert(v.grid[k] == Square::House);
            }
        }
        assert(marks(w.grid, Square::Gate, 2, v.gate1.0 as int, v.gate2.0 as int)) by {
            assert forall|j: int| 0 <= j < w.grid.len() implies (#[trigger] w.grid[j]
                == Square::Gate <==> j == v.gate1.0 || j == v.gate2.0) by {
                assert(v.grid[j] == Square::Gate <==> j == v.gate1.0 || j == v.gate2.0);
            }
        }
        assert(marks(w.grid, Square::Fruit, 1, v.fruit.0 as int, 0)) by {
            assert forall|j: int| 0 <= j < w.grid.len() implies (#[trigger] w.grid[j]
                == Square::Fruit <==> j == v.fruit.0) by {
                assert(v.grid[j] == Square::Fruit <==> j == v.fruit.0);
            }
        }
        assert(marks(w.grid, Square::Start, 1, v.pacman_start.0 as int, 0)) by {
            assert forall|j: int| 0 <= j < w.grid.len() implies (#[trigger] w.grid[j]
                == Square::Start <==> j == v.pacman_start.0) by {
                assert(v.grid[j] == Square::Start <==> j == v.pacman_start.0);
            }
        }
    }
}

/// Counts the tiles of `kind` and finds the first two of them.
fn scan(grid: &Vec<Square>, kind: Square) -> (r: (usize, usize, usize))
    ensures
        r.0 == count(grid@, kind),
        marks(grid@, kind, r.0 as int, r.1 as int, r.2 as int),
{
    let mut n: usize = 0;
    let mut first: usize = 0;
    let mut second: usize = 0;
    let mut i: usize = 0;
    assert(grid@.take(0) =~= Seq::<Square>::empty());
    while i < grid.len()
        invariant
            0 <= i <= grid.len(),
            n <= i,
            n == count(grid@.take(i as int), kind),
            n >= 1 ==> first < i && grid@[first as int] == kind,
            n >= 2 ==> first < second < i && grid@[second as int] == kind,
            n <= 2 ==> forall|j: int|
                0 <= j < i ==> (#[trigger] grid@[j] == kind <==> (n >= 1 && j == first) || (n >= 2
                    && j == second)),
        decreases grid.len() - i,
    {
        proof {
            lemma_count_step(grid@, kind, i as int);
        }
        if grid[i] == kind {
            if n == 0 {
                first = i;
            } else if n == 1 {
                second = i;
            }
            n = n + 1;
        }
        i = i + 1;
    }
    assert(grid@.take(grid.len() as int) =~= grid@);
    (n, first, second)
}

/// Finds the smallest box of columns and rows around the `House` tiles,
/// given one of them.
fn find_house_box(grid: &Vec<Square>, one: usize) -> (r: (usize, usize, usize, usize))
    requires
        one < grid.len(),
        grid@[one as int] == Square::House,
        grid.len() % WIDTH == 0,
    ensures
        house_box(grid@, r.0 as int, r.1 as int, r.2 as int, r.3 as int),
        r.0 <= r.1 < WIDTH,
        r.2 <= r.3,
        r.3 * WIDTH + WIDTH <= grid.len(),
{
    let start = Position(one);
    let mut c0: usize = start.col();
    let mut c1: usize = c0;
    let mut r0: usize = start.row();
    let mut r1: usize = r0;
    let ghost mut w0: int = one as int;
    let ghost mut w1: int = one as int;
    let ghost mut w2: int = one as int;
    let ghost mut w3: int = one as int;
    let mut i: usize = 0;
    while i < grid.len()
        invariant
            0 <= i <= grid.len(),
            c0 <= c1 < WIDTH,
            r0 <= r1,
            r1 * WIDTH + WIDTH <= grid.len(),
            grid.len() % WIDTH == 0,
            0 <= w0 < grid.len() && grid@[w0] == Square::House && w0 % (WIDTH as int) == c0,
            0 <= w1 < grid.len() && grid@[w1] == Square::House && w1 % (WIDTH as int) == c1,
            0 <= w2 < grid.len() && grid@[w2] == Square::House && w2 / (WIDTH as int) == r0,
            0 <= w3 < grid.len() && grid@[w3] == Square::House && w3 / (WIDTH as int) == r1,
            forall|j: int|
                0 <= j < i && #[trigger] grid@[j] == Square::House ==> c0 <= j % (WIDTH as int)
                    <= c1 && r0 <= j / (WIDTH as int) <= r1,
        decreases grid.len() - i,
    {
        if grid[i] == Square::House {
            let p = Position(i);
            let (c, r): (usize, usize) = (p.col(), p.row());
            if c < c0 {
                c0 = c;
                proof {
                    w0 = i as int;
                }
            }
            if c > c1 {
                c1 = c;
                proof {
                    w1 = i as int;
                }
            }
            if r < r0 {
                r0 = r;
                proof {
                    w2 = i as int;
                }
            }
            if r > r1 {
                r1 = r;
                proof {
                    w3 = i as int;
                }
            }
        }
        i = i + 1;
    }
    (c0, c1, r0, r1)
}

/// Decides whether the maze is closed in by walls.
fn check_enclosed(grid: &Vec<Square>) -> (b: bool)
    ensures
        b == enclosed(grid@),
{
    let len: usize = grid.len();
    let mut i: usize = 0;
    while i < len
        invariant
            0 <= i <= len,
            len == grid.len(),
            forall|j: int|
                0 <= j < i ==> (#[trigger] grid@[j] != Square::Wall ==> inner(len as int, j)) && (
                grid@[j] == Square::Gate ==> inner(len as int, j - WIDTH) && inner(
                    len as int,
                    j + WIDTH,
                )),
        decreases len - i,
    {
        let tile = grid[i];
        if tile != Square::Wall && !(WIDTH <= i && len - i > WIDTH) {
            assert(!inner(len as int, i as int));
            return false;
        }
        if tile == Square::Gate && !(2 * WIDTH <= i && len - i > 2 * WIDTH) {
            assert(!(inner(len as int, i - WIDTH) && inner(len as int, i + WIDTH)));
            return false;
        }
        i = i + 1;
    }
    true
}

/// The characters of the rows of a layout.
pub open spec fn chars_of(rows: Seq<&str>) -> Seq<Seq<char>> {
    Seq::new(rows.len(), |r: int| rows[r]@)
}

/// Why the text of a layout cannot be read as a grid: a row that is not
/// `WIDTH` characters long, or else a character that the legend lacks.
pub open spec fn rows_error(rows: Seq<Seq<char>>) -> Option<BoardError> {
    if exists|r: int| 0 <= r < rows.len() && (#[trigger] rows[r]).len() != WIDTH {
        Some(BoardError::WrongWidth)
    } else if exists|r: int, c: int|
        0 <= r < rows.len() && 0 <= c < WIDTH && Square::of_char(#[trigger] rows[r][c]) is None {
        Some(BoardError::UnknownTile)
    } else {
        None
    }
}

/// The grid that the rows of a layout spell, row after row.
pub open spec fn tiles_of(rows: Seq<Seq<char>>) -> Seq<Square> {
    Seq::new(
        rows.len() * WIDTH as nat,
        |i: int| Square::of_char(rows[i / WIDTH as int][i % WIDTH as int]).unwrap(),
    )
}

/// What building a board from the rows of a layout gives: the error of the
/// text, or else that of the grid.
pub open spec fn rows_outcome(rows: Seq<Seq<char>>) -> Option<BoardError> {
    if rows_error(rows) is Some {
        rows_error(rows)
    } else {
        layout_error(tiles_of(rows), WIDTH as int)
    }
}

/// Where the landmarks of a layout lie, as indices in row order.
pub struct Chart {
    pub gate1: int,
    pub gate2: int,
    pub fruit: int,
    pub start: int,
    /// The upper left corner of the box around the house.
    pub house_first: int,
    /// The lower right corner of the box around the house.
    pub house_last: int,
}

/// Row `r` of a layout is `WIDTH` characters of the legend, with a gate,
/// the fruit and the start at the squares that the chart names and
/// nowhere else, and with the house inside its box.
pub open spec fn row_charted(rows: Seq<Seq<char>>, r: int, chart: Chart) -> bool {
    &&& rows[r].len() == WIDTH
    &&& forall|c: int|
        0 <= c < WIDTH ==> {
            let tile = Square::of_char(#[trigger] rows[r][c]);
            let i = r * WIDTH + c;
            &&& tile is Some
            &&& tile == Some(Square::Gate) <==> i == chart.gate1 || i == chart.gate2
            &&& tile == Some(Square::Fruit) <==> i == chart.fruit
            &&& tile == Some(Square::Start) <==> i == chart.start
            &&& tile == Some(Square::House) ==> chart.house_first % (WIDTH as int) <= c
                <= chart.house_last % (WIDTH as int) && chart.house_first / (WIDTH as int) <= r
                <= chart.house_last / (WIDTH as int)
        }
}

/// A layout, square by square: every row is charted, the first and the
/// last row are walls, the gates keep two rows off them, the fruit and the
/// start are on the grid, and the two corners of the box around the house
/// are squares of the house.
pub open spec fn charted(rows: Seq<Seq<char>>, chart: Chart) -> bool {
    let len = rows.len() * WIDTH;
    &&& len + 4 * WIDTH <= usize::MAX
    &&& forall|r: int| 0 <= r < rows.len() ==> #[trigger] row_charted(rows, r, chart)
    &&& forall|c: int|
        0 <= c < WIDTH ==> Square::of_char(#[trigger] rows[0][c]) == Some(Square::Wall)
    &&& forall|c: int|
        0 <= c < WIDTH ==> Square::of_char(#[trigger] rows[rows.len() - 1][c]) == Some(
            Square::Wall,
        )
    &&& 2 * WIDTH <= chart.gate1 < chart.gate2 < len - 2 * WIDTH
    &&& 0 <= chart.fruit < len
    &&& 0 <= chart.start < len
    &&& 0 <= chart.house_first <= chart.house_last < len
    &&& Square::of_char(
        rows[chart.house_first / WIDTH as int][chart.house_first % WIDTH as int],
    ) == Some(Square::House)
    &&& Square::of_char(rows[chart.house_last / WIDTH as int][chart.house_last % WIDTH as int])
        == Some(Square::House)
}

/// The landmarks of a board are where a chart has them. The adversaries
/// start on the corners of the box around the house.
pub open spec fn follows(v: BoardView, chart: Chart) -> bool {
    let (c0, c1) = (chart.house_first % (WIDTH as int), chart.house_last % (WIDTH as int));
    let (r0, r1) = (chart.house_first / (WIDTH as int), chart.house_last / (WIDTH as int));
    &&& v.gate1.0 == chart.gate1
    &&& v.gate2.0 == chart.gate2
    &&& v.front_of_gate1.0 == chart.gate1 - WIDTH
    &&& v.front_of_gate2.0 == chart.gate2 - WIDTH
    &&& v.fruit.0 == chart.fruit
    &&& v.pacman_start.0 == chart.start
    &&& v.ghost_start.len() == 4
    &&& v.ghost_start[0].0 == r0 * WIDTH + c0
    &&& v.ghost_start[1].0 == r0 * WIDTH + c1
    &&& v.ghost_start[2].0 == r1 * WIDTH + c0
    &&& v.ghost_start[3].0 == r1 * WIDTH + c1
}

/// A charted layout is a playable maze.
pub proof fn lemma_charted_playable(rows: Seq<Seq<char>>, chart: Chart)
    requires
        charted(rows, chart),
    ensures
        rows_outcome(rows) is None,
        forall|i: int|
            0 <= i < tiles_of(rows).len() ==> (#[trigger] tiles_of(rows)[i] == Square::House
                ==> chart.house_first % (WIDTH as int) <= i % (WIDTH as int) <= chart.house_last
                % (WIDTH as int) && chart.house_first / (WIDTH as int) <= i / (WIDTH as int)
                <= chart.house_last / (WIDTH as int)),
        tiles_of(rows)[chart.house_first] == Square::House,
        tiles_of(rows)[chart.house_last] == Square::House,
        marks(tiles_of(rows), Square::Gate, 2, chart.gate1, chart.gate2),
        marks(tiles_of(rows), Square::Fruit, 1, chart.fruit, 0),
        marks(tiles_of(rows), Square::Start, 1, chart.start, 0),
{
    let grid = tiles_of(rows);
    let len = rows.len() * WIDTH;
    assert forall|r: int| 0 <= r < rows.len() implies (#[trigger] rows[r]).len() == WIDTH by {
        assert(row_charted(rows, r, chart));
    }
    assert forall|r: int, c: int| 0 <= r < rows.len() && 0 <= c < WIDTH implies Square::of_char(
        #[trigger] rows[r][c],
    ) is Some by {
        assert(row_charted(rows, r, chart));
    }
    assert(rows_error(rows) is None);
    assert forall|i: int| 0 <= i < len implies {
        &&& (#[trigger] grid[i] == Square::Gate <==> i == chart.gate1 || i == chart.gate2)
        &&& grid[i] == Square::Fruit <==> i == chart.fruit
        &&& grid[i] == Square::Start <==> i == chart.start
        &&& grid[i] != Square::Wall ==> inner(len as int, i)
        &&& grid[i] == Square::House ==> chart.house_first % (WIDTH as int) <= i % (WIDTH as int)
            <= chart.house_last % (WIDTH as int) && chart.house_first / (WIDTH as int) <= i / (
        WIDTH as int) <= chart.house_last / (WIDTH as int)
    } by {
        let r = i / WIDTH as int;
        let c = i % WIDTH as int;
        assert(row_charted(rows, r, chart));
        let tile = Square::of_char(rows[r][c]);
        assert(tile is Some);
        if r == 0 {
            assert(Square::of_char(rows[0][c]) == Some(Square::Wall));
        }
        if r == rows.len() - 1 {
            assert(Square::of_char(rows[rows.len() - 1][c]) == Some(Square::Wall));
        }
    }
    assert(grid[chart.house_first] == Square::House);
    assert(grid[chart.house_last] == Square::House);
    lemma_count_marks(grid, Square::Gate, 2, chart.gate1, chart.gate2);
    lemma_count_marks(grid, Square::Fruit, 1, chart.fruit, 0);
    lemma_count_marks(grid, Square::Start, 1, chart.start, 0);
    lemma_count_positive(grid, Square::House, chart.house_first);
    assert(enclosed(grid));
    assert(layout_error(grid, WIDTH as int) is None);
}

/// The board of a charted layout follows the chart.
pub proof fn lemma_charted_landmarks(rows: Seq<Seq<char>>, chart: Chart, v: BoardView)
    requires
        charted(rows, chart),
        v.valid(),
        v.grid == tiles_of(rows),
    ensures
        follows(v, chart),
{
    lemma_charted_playable(rows, chart);
    let grid = v.grid;
    assert(grid[chart.gate1] == Square::Gate);
    assert(grid[chart.gate2] == Square::Gate);
    assert(grid[chart.fruit] == Square::Fruit);
    assert(grid[chart.start] == Square::Start);
    assert(grid[v.gate1.0 as int] == Square::Gate);
    assert(grid[v.gate2.0 as int] == Square::Gate);
    let c0 = v.ghost_start[0].spec_col();
    let c1 = v.ghost_start[3].spec_col();
    let r0 = v.ghost_start[0].spec_row();
    let r1 = v.ghost_start[3].spec_row();
    let a = choose|k: int|
        0 <= k < grid.len() && #[trigger] grid[k] == Square::House && k % (WIDTH as int) == c0;
    let b = choose|k: int|
        0 <= k < grid.len() && #[trigger] grid[k] == Square::House && k % (WIDTH as int) == c1;
    let c = choose|k: int|
        0 <= k < grid.len() && #[trigger] grid[k] == Square::House && k / (WIDTH as int) == r0;
    let d = choose|k: int|
        0 <= k < grid.len() && #[trigger] grid[k] == Square::House && k / (WIDTH as int) == r1;
    assert(grid[a] == Square::House && grid[b] == Square::House);
    assert(grid[c] == Square::House && grid[d] == Square::House);
}

/// One if character `c` of a row is `ch`, else nothing.
pub open spec fn hit(row: Seq<char>, ch: char, c: int) -> nat {
    if row[c] == ch {
        1
    } else {
        0
    }
}

/// Number of the first `n` characters of a row that are `ch`.
pub open spec fn row_tally_to(row: Seq<char>, ch: char, n: nat) -> nat
    decreases n,
{
    if n == 0 {
        0
    } else {
        row_tally_to(row, ch, (n - 1) as nat) + hit(row, ch, n - 1)
    }
}

/// Number of characters `ch` in a row of `WIDTH` characters.
pub open spec fn row_tally(row: Seq<char>, ch: char) -> nat {
    hit(row, ch, 0) + hit(row, ch, 1) + hit(row, ch, 2) + hit(row, ch, 3) + hit(row, ch, 4) + hit(
        row,
        ch,
        5,
    ) + hit(row, ch, 6) + hit(row, ch, 7) + hit(row, ch, 8) + hit(row, ch, 9) + hit(row, ch, 10)
        + hit(row, ch, 11) + hit(row, ch, 12) + hit(row, ch, 13) + hit(row, ch, 14) + hit(
        row,
        ch,
        15,
    ) + hit(row, ch, 16) + hit(row, ch, 17) + hit(row, ch, 18) + hit(row, ch, 19) + hit(
        row,
        ch,
        20,
    ) + hit(row, ch, 21) + hit(row, ch, 22) + hit(row, ch, 23) + hit(row, ch, 24) + hit(
        row,
        ch,
        25,
    ) + hit(row, ch, 26) + hit(row, ch, 27)
}

/// Number of characters `ch` in the first `n` rows of a layout.
pub open spec fn rows_tally(rows: Seq<Seq<char>>, ch: char, n: nat) -> nat
    decreases n,
{
    if n == 0 {
        0
    } else {
        rows_tally(rows, ch, (n - 1) as nat) + row_tally(rows[n - 1], ch)
    }
}

/// The tally of a row is the tally of its `WIDTH` characters one by one.
pub proof fn lemma_row_tally(row: Seq<char>, ch: char)
    ensures
        row_tally_to(row, ch, WIDTH as nat) == row_tally(row, ch),
{
    reveal_with_fuel(row_tally_to, 29);
}

/// In a layout that reads as a grid, the grid holds as many tiles of a
/// kind as the text holds characters of that kind.
pub proof fn lemma_count_tally(rows: Seq<Seq<char>>, kind: Square)
    requires
        rows_error(rows) is None,
    ensures
        count(tiles_of(rows), kind) == rows_tally(rows, kind.spec_to_char(), rows.len()),
{
    let grid = tiles_of(rows);
    lemma_tally_prefix(rows, kind, grid.len() as int);
    assert(grid.take(grid.len() as int) =~= grid);
}

/// The count of a kind among the first `i` tiles is the tally of its
/// character over the whole rows among them and the part of the next row.
proof fn lemma_tally_prefix(rows: Seq<Seq<char>>, kind: Square, i: int)
    requires
        rows_error(rows) is None,
        0 <= i <= rows.len() * WIDTH,
    ensures
        count(tiles_of(rows).take(i), kind) == rows_tally(
            rows,
            kind.spec_to_char(),
            (i / WIDTH as int) as nat,
        ) + if i % (WIDTH as int) == 0 {
            0nat
        } else {
            row_tally_to(rows[i / WIDTH as int], kind.spec_to_char(), (i % WIDTH as int) as nat)
        },
    decreases i,
{
    let grid = tiles_of(rows);
    let ch = kind.spec_to_char();
    if i == 0 {
        assert(grid.take(0) =~= Seq::<Square>::empty());
    } else {
        let j = i - 1;
        let (r, c) = (j / WIDTH as int, j % WIDTH as int);
        lemma_tally_prefix(rows, kind, j);
        lemma_count_step(grid, kind, j);
        assert(rows[r].len() == WIDTH);
        assert(Square::of_char(rows[r][c]) is Some);
        crate::square::lemma_legend_round_trip(kind);
        assert(grid[j] == kind <==> rows[r][c] == ch);
        if c == 0 {
            assert(row_tally_to(rows[r], ch, 0) == 0);
        }
        if c == WIDTH - 1 {
            assert(i / WIDTH as int == r + 1 && i % (WIDTH as int) == 0);
            lemma_row_tally(rows[r], ch);
        } else {
            assert(i / WIDTH as int == r && i % (WIDTH as int) == c + 1);
        }
    }
}

/// Reads the rows of a layout into a grid of tiles.
pub fn parse_rows(rows: &[&str]) -> (r: Result<Vec<Square>, BoardError>)
    ensures
        match r {
            Ok(grid) => rows_error(chars_of(rows@)) is None && grid@ == tiles_of(chars_of(rows@)),
            Err(e) => rows_error(chars_of(rows@)) == Some(e),
        },
{
    let ghost text = chars_of(rows@);
    let mut r: usize = 0;
    while r < rows.len()
        invariant
            0 <= r <= rows.len(),
            text == chars_of(rows@),
            forall|k: int| 0 <= k < r ==> (#[trigger] text[k]).len() == WIDTH,
        decreases rows.len() - r,
    {
        if rows[r].unicode_len() != WIDTH {
            assert(text[r as int].len() != WIDTH);
            return Err(BoardError::WrongWidth);
        }
        r = r + 1;
    }
    let mut grid: Vec<Square> = Vec::new();
    let mut r: usize = 0;
    while r < rows.len()
        invariant
            0 <= r <= rows.len(),
            text == chars_of(rows@),
            forall|k: int| 0 <= k < rows.len() ==> (#[trigger] text[k]).len() == WIDTH,
            grid@.len() == r * WIDTH,
            forall|i: int|
                0 <= i < grid@.len() ==> Some(#[trigger] grid@[i]) == Square::of_char(
                    text[i / WIDTH as int][i % WIDTH as int],
                ),
        decreases rows.len() - r,
    {
        let row = rows[r];
        assert(row@ == text[r as int]);
        let mut c: usize = 0;
        while c < WIDTH
            invariant
                0 <= c <= WIDTH,
                0 <= r < rows.len(),
                text == chars_of(rows@),
                row@ == text[r as int],
                row@.len() == WIDTH,
                forall|k: int| 0 <= k < rows.len() ==> (#[trigger] text[k]).len() == WIDTH,
                grid@.len() == r * WIDTH + c,
                forall|i: int|
                    0 <= i < grid@.len() ==> Some(#[trigger] grid@[i]) == Square::of_char(
                        text[i / WIDTH as int][i % WIDTH as int],
                    ),
            decreases WIDTH - c,
        {
            match Square::from_char(row.get_char(c)) {
                Some(tile) => {
                    grid.push(tile);
                },
                None => {
                    assert(Square::of_char(text[r as int][c as int]) is None);
                    return Err(BoardError::UnknownTile);
                },
            }
            c = c + 1;
        }
        r = r + 1;
    }
    proof {
        assert forall|k: int, c: int| 0 <= k < text.len() && 0 <= c < WIDTH implies Square::of_char(
            #[trigger] text[k][c],
        ) is Some by {
            let i = k * WIDTH + c;
            assert(i / WIDTH as int == k && i % WIDTH as int == c) by (nonlinear_arith)
                requires
                    i == k * WIDTH + c,
                    0 <= c < WIDTH,
            ;
            assert(0 <= i < grid@.len()) by (nonlinear_arith)
                requires
                    i == k * WIDTH + c,
                    0 <= c < WIDTH,
                    0 <= k < text.len(),
                    grid@.len() == text.len() * WIDTH,
            ;
            assert(Some(grid@[i]) == Square::of_char(text[i / WIDTH as int][i % WIDTH as int]));
        }
        assert(grid@ =~= tiles_of(text));
    }
    Ok(grid)
}

/// One levelled maze. The grid changes only where the player eats a `Dot`
/// or a `Pill`; the landmarks never change.
pub struct Board {
    squares: Vec<Square>,
    gate1: Position,
    gate2: Position,
    front_of_gate1: Position,
    front_of_gate2: Position,
    fruit: Position,
    pacman_start: Position,
    ghost_start: [Position; 4],
}

impl View for Board {
    type V = BoardView;

    closed spec fn view(&self) -> BoardView {
        BoardView {
            grid: self.squares@,
            gate1: self.gate1,
            gate2: self.gate2,
            front_of_gate1: self.front_of_gate1,
            front_of_gate2: self.front_of_gate2,
            fruit: self.fruit,
            pacman_start: self.pacman_start,
            ghost_start: self.ghost_start@,
        }
    }
}

impl Board {
    /// The invariant of every board that this module hands out.
    pub open spec fn wf(&self) -> bool {
        self@.valid()
    }

    /// Builds the board of a grid of tiles with the declared `width`. The
    /// grid is refused for the first reason that `layout_error` finds.
    pub fn from_grid(grid: Vec<Square>, width: usize) -> (r: Result<Board, BoardError>)
        ensures
            match r {
                Ok(b) => layout_error(grid@, width as int) is None && b.wf() && b@.grid == grid@,
                Err(e) => layout_error(grid@, width as int) == Some(e),
            },
    {
        let len: usize = grid.len();
        if width != WIDTH || len % WIDTH != 0 {
            return Err(BoardError::WrongWidth);
        }
        if len > usize::MAX - 4 * WIDTH {
            return Err(BoardError::TooLarge);
        }
        let gates = scan(&grid, Square::Gate);
        if gates.0 != 2 {
            return Err(BoardError::GateCount);
        }
        let fruit = scan(&grid, Square::Fruit);
        if fruit.0 != 1 {
            return Err(BoardError::FruitCount);
        }
        let start = scan(&grid, Square::Start);
        if start.0 != 1 {
            return Err(BoardError::StartCount);
        }
        let house = scan(&grid, Square::House);
        if house.0 == 0 {
            return Err(BoardError::NoHouse);
        }
        if !check_enclosed(&grid) {
            return Err(BoardError::NotEnclosed);
        }
        let (c0, c1, r0, r1) = find_house_box(&grid, house.1);
        let gate1 = Position(gates.1);
        let gate2 = Position(gates.2);
        assert(grid@[gates.1 as int] == Square::Gate);
        assert(grid@[gates.2 as int] == Square::Gate);
        assert(r0 * WIDTH <= r1 * WIDTH) by (nonlinear_arith)
            requires
                r0 <= r1,
        ;
        let ghost_start = [
            Position::from_xy(c0, r0),
            Position::from_xy(c1, r0),
            Position::from_xy(c0, r1),
            Position::from_xy(c1, r1),
        ];
        let board = Board {
            squares: grid,
            gate1,
            gate2,
            front_of_gate1: gate1.go(Direction::Up),
            front_of_gate2: gate2.go(Direction::Up),
            fruit: Position(fruit.1),
            pacman_start: Position(start.1),
            ghost_start,
        };
        proof {
            assert(board@.ghost_start[0].spec_col() == c0);
            assert(board@.ghost_start[3].spec_col() == c1);
            assert(board@.ghost_start[0].spec_row() == r0);
            assert(board@.ghost_start[3].spec_row() == r1);
        }
        Ok(board)
    }

    /// Builds the board that the rows of a layout spell.
    pub fn from_rows(rows: &[&str]) -> (r: Result<Board, BoardError>)
        ensures
            match r {
                Ok(b) => rows_outcome(chars_of(rows@)) is None && b.wf() && b@.grid == tiles_of(
                    chars_of(rows@),
                ),
                Err(e) => rows_outcome(chars_of(rows@)) == Some(e),
            },
    {
        match parse_rows(rows) {
            Ok(grid) => Board::from_grid(grid, WIDTH),
            Err(e) => Err(e),
        }
    }

    /// Builds the board of a level from its built-in layout. Every
    /// built-in layout is a playable maze, so this never fails: the board
    /// holds exactly two gates, one fruit and one start, its landmarks are
    /// those of the chart of the level, and its dots are as many as the
    /// level has.
    pub fn new(level: u32) -> (b: Board)
        ensures
            b.wf(),
            b@.grid == tiles_of(chars_of(spec_layout(level))),
            follows(b@, spec_chart(level)),
            count(b@.grid, Square::Dot) == spec_dots(level),
            count(b@.grid, Square::Gate) == 2,
            count(b@.grid, Square::Fruit) == 1,
            count(b@.grid, Square::Start) == 1,
    {
        proof {
            lemma_layouts_playable(level);
        }
        match Board::from_rows(layout(level)) {
            Ok(b) => {
                proof {
                    lemma_charted_landmarks(chars_of(spec_layout(level)), spec_chart(level), b@);
                }
                b
            },
            Err(_) => unreached(),
        }
    }

    /// Number of `Dot` tiles that are left.
    pub fn dots(&self) -> (n: usize)
        ensures
            n == count(self@.grid, Square::Dot),
    {
        scan(&self.squares, Square::Dot).0
    }

    /// Number of squares.
    pub fn len(&self) -> (n: usize)
        ensures
            n == self@.grid.len(),
    {
        self.squares.len()
    }

    /// The tile on square `pos`.
    pub fn at(&self, pos: Position) -> (s: Square)
        requires
            self@.holds(pos),
        ensures
            s == self@.grid[pos.0 as int],
    {
        self.squares[pos.0]
    }

    /// The tile on square `pos`, or `None` where `pos` is off the grid.
    pub fn get(&self, pos: Position) -> (s: Option<Square>)
        ensures
            s == if self@.holds(pos) {
                Some(self@.grid[pos.0 as int])
            } else {
                None
            },
    {
        if pos.0 < self.squares.len() {
            Some(self.squares[pos.0])
        } else {
            None
        }
    }

    /// Empties square `pos` where it holds a `Dot` or a `Pill`, and
    /// returns what was eaten.
    pub fn consume(&mut self, pos: Position) -> (eaten: Option<Square>)
        requires
            old(self).wf(),
        ensures
            final(self).wf(),
            final(self)@ == old(self)@.eaten(pos.0 as int),
            eaten == if old(self)@.holds(pos) && (old(self)@.grid[pos.0 as int] == Square::Dot
                || old(self)@.grid[pos.0 as int] == Square::Pill) {
                Some(old(self)@.grid[pos.0 as int])
            } else {
                None
            },
    {
        proof {
            lemma_eaten_valid(self@, pos.0 as int);
        }
        if pos.0 < self.squares.len() {
            let tile = self.squares[pos.0];
            if tile == Square::Dot || tile == Square::Pill {
                self.squares[pos.0] = Square::Empty;
                return Some(tile);
            }
        }
        None
    }
    /// Whether square `pos` and its four neighbours are on the grid.
    pub fn is_inner(&self, pos: Position) -> (b: bool)
        ensures
            b == self@.inner(pos),
    {
        let len: usize = self.squares.len();
        WIDTH <= pos.0 && pos.0 < len && len - pos.0 > WIDTH
    }

    /// Number of columns.
    pub fn width(&self) -> (w: usize)
        ensures
            w == WIDTH,
    {
        WIDTH
    }

    /// Number of rows.
    pub fn height(&self) -> (h: usize)
        ensures
            h == self@.height(),
    {
        self.squares.len() / WIDTH
    }

    /// The first gate in scan order.
    pub fn gate1(&self) -> (p: Position)
        ensures
            p == self@.gate1,
    {
        self.gate1
    }

    /// The second gate in scan order.
    pub fn gate2(&self) -> (p: Position)
        ensures
            p == self@.gate2,
    {
        self.gate2
    }

    /// The square above the first gate.
    pub fn front_of_gate1(&self) -> (p: Position)
        ensures
            p == self@.front_of_gate1,
    {
        self.front_of_gate1
    }

    /// The square above the second gate.
    pub fn front_of_gate2(&self) -> (p: Position)
        ensures
            p == self@.front_of_gate2,
    {
        self.front_of_gate2
    }

    /// The square of the fruit.
    pub fn fruit(&self) -> (p: Position)
        ensures
            p == self@.fruit,
    {
        self.fruit
    }

    /// The square on which the player starts.
    pub fn pacman_start(&self) -> (p: Position)
        ensures
            p == self@.pacman_start,
    {
        self.pacman_start
    }

    /// The squares on which the four adversaries start: the corners of the
    /// box around the house, upper left, upper right, lower left, lower
    /// right.
    pub fn ghost_start(&self) -> (a: [Position; 4])
        ensures
            a@ == self@.ghost_start,
    {
        self.ghost_start
    }
}

/// A valid board holds exactly two gates, one fruit, one start and at least
/// one house tile.
pub proof fn lemma_valid_landmarks(v: BoardView)
    requires
        v.valid(),
    ensures
        count(v.grid, Square::Gate) == 2,
        count(v.grid, Square::Fruit) == 1,
        count(v.grid, Square::Start) == 1,
        count(v.grid, Square::House) >= 1,
        v.grid[v.gate1.0 as int] == Square::Gate,
        v.grid[v.gate2.0 as int] == Square::Gate,
        v.grid[v.fruit.0 as int] == Square::Fruit,
        v.grid[v.pacman_start.0 as int] == Square::Start,
        v.inner(v.gate1) && v.inner(v.gate2),
        v.inner(v.front_of_gate1) && v.inner(v.front_of_gate2),
        v.inner(v.fruit) && v.inner(v.pacman_start),
        forall|k: int| 0 <= k < 4 ==> v.inner(#[trigger] v.ghost_start[k]),
{
    let c0 = v.ghost_start[0].spec_col();
    let c1 = v.ghost_start[3].spec_col();
    let r0 = v.ghost_start[0].spec_row();
    let r1 = v.ghost_start[3].spec_row();
    let a = choose|k: int|
        0 <= k < v.grid.len() && #[trigger] v.grid[k] == Square::House && k / (WIDTH as int) == r0;
    let b = choose|k: int|
        0 <= k < v.grid.len() && #[trigger] v.grid[k] == Square::House && k / (WIDTH as int) == r1;
    assert(v.grid[a] != Square::Wall);
    assert(v.grid[b] != Square::Wall);
    assert(inner(v.grid.len() as int, a));
    assert(inner(v.grid.len() as int, b));
}

} // verus!
