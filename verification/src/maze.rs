//! The built-in maze layouts, one row of characters per line.
//!
//! `#` is a wall, `.` a dot, `P` a pill, `$` the fruit, `p` the start of the
//! player, `-` a gate, `H` the house, `;` a tunnel and a blank an empty
//! square.

use crate::board::{chars_of, charted, count, lemma_charted_playable, lemma_count_tally,
    row_charted, rows_outcome, rows_tally, tiles_of, Chart};
use crate::square::Square;
use crate::geometry::WIDTH;
use vstd::prelude::*;

verus! {

/// The small maze of the first level.
pub const MAZE_SMALL: [&'static str; 24] = [
    "############################",
    "#............##............#",
    "#.####.#####.##.#####.####.#",
    "#P####.#####.##.#####.####P#",
    "#..........................#",
    "#.####.##.########.##.####.#",
    "#......##....##....##......#",
    "######.##### ## #####.######",
    "     #.##          ##.#     ",
    "     #.## ###--### ##.#     ",
    "######.## # HHHH # ##.######",
    ";;;;;;.   # HHHH #   .;;;;;;",
    "######.## # HHHH # ##.######",
    "     #.## ######## ##.#     ",
    "     #.##    $     ##.#     ",
    "######.## ######## ##.######",
    "#............##............#",
    "#.####.#####.##.#####.####.#",
    "#P..##.......p........##..P#",
    "###.##.##.########.##.##.###",
    "#......##....##....##......#",
    "#.##########.##.##########.#",
    "#..........................#",
    "############################",
];

/// The regular maze, used wherever no other is named.
pub const MAZE_REGULAR: [&'static str; 29] = [
    "############################",
    "#............##............#",
    "#.####.#####.##.#####.####.#",
    "#P####.#####.##.#####.####P#",
    "#.####.#####.##.#####.####.#",
    "#..........................#",
    "#.####.##.########.##.####.#",
    "#.####.##.########.##.####.#",
    "#......##....##....##......#",
    "######.##### ## #####.######",
    "     #.##          ##.#     ",
    "     #.## ###--### ##.#     ",
    "######.## # HHHH # ##.######",
    ";;;;;;.   # HHHH #   .;;;;;;",
    "######.## # HHHH # ##.######",
    "     #.## ######## ##.#     ",
    "     #.##    $     ##.#     ",
    "######.## ######## ##.######",
    "#............##............#",
    "#.####.#####.##.#####.####.#",
    "#.####.#####.##.#####.####.#",
    "#P..##.......p........##..P#",
    "###.##.##.########.##.##.###",
    "###.##.##.########.##.##.###",
    "#......##....##....##......#",
    "#.##########.##.##########.#",
    "#.##########.##.##########.#",
    "#..........................#",
    "############################",
];

/// The pink maze of the third level.
pub const MAZE_PINK: [&'static str; 31] = [
    "############################",
    "#......##..........##......#",
    "#P####.##.########.##.####P#",
    "#.####.##.########.##.####.#",
    "#..........................#",
    "###.##.#####.##.#####.##.###",
    "###.##.#####.##.#####.##.###",
    "###.##.#####.##.#####.##.###",
    ";;;.##.......##.......##.;;;",
    "###.#####.########.#####.###",
    "###.                    .###",
    "###.##### ###--### #####.###",
    "###.##### # HHHH # #####.###",
    "###.##### # HHHH # #####.###",
    "###.##    # HHHH #    ##.###",
    "###.## ## # HHHH # ## ##.###",
    "###.## ## ######## ## ##.###",
    ";;;.   ##    $     ##   .;;;",
    "###.######## ## ########.###",
    "###.######## ## ########.###",
    "###.......   ##   .......###",
    "###.#####.########.#####.###",
    "###.#####.########.#####.###",
    "#............p.............#",
    "#.####.#####.##.#####.####.#",
    "#.####.#####.##.#####.####.#",
    "#.####.##....##....##.####.#",
    "#P####.##.########.##.####P#",
    "#.####.##.########.##.####.#",
    "#..........................#",
    "############################",
];

/// The blue maze of the fourth level.
pub const MAZE_BLUE: [&'static str; 31] = [
    "############################",
    "#..........................#",
    "#.##.####.########.####.##.#",
    "#P##.####.########.####.##P#",
    "#.##.####.##....##.####.##.#",
    "#.##......##.##.##......##.#",
    "#.####.##.##.##.##.##.####.#",
    "#.####.##.##.##.##.##.####.#",
    "#......##....##....##......#",
    "###.######## ## ########.###",
    "###.######## ## ########.###",
    "###....##          ##....###",
    "### ##.## ###--### ##.## ###",
    ";;; ##.   # HHHH #   .## ;;;",
    "######.## # HHHH # ##.######",
    "######.## ######## ##.######",
    ";;; ##.##    $     ##.##.;;;",
    "### ##.##### ## #####.##.###",
    "###....##### ## #####....###",
    "###.##.##### ## #####.##.###",
    "###.##....   ##   ....##.###",
    "###.#####.## ## ##.#####.###",
    "###.#####.## ## ##.#####.###",
    "#.........## p  ##.........#",
    "#.####.##.########.##.####.#",
    "#.####.##.########.##.####.#",
    "#.##...##..........##...##.#",
    "#P##.#######.##.#######.##P#",
    "#.##.#######.##.#######.##.#",
    "#..........................#",
    "############################",
];

/// The layout that a level is played on.
pub open spec fn spec_layout(level: u32) -> Seq<&'static str> {
    if level == 0 {
        MAZE_SMALL@
    } else if level == 2 {
        MAZE_PINK@
    } else if level == 3 {
        MAZE_BLUE@
    } else {
        MAZE_REGULAR@
    }
}

/// Selects the layout of a level: the small maze first, then the regular
/// one, the pink one at level 2, the blue one at level 3, and the regular
/// one from then on.
pub fn layout(level: u32) -> (rows: &'static [&'static str])
    ensures
        rows@ == spec_layout(level),
{
    match level {
        0 => &MAZE_SMALL,
        2 => &MAZE_PINK,
        3 => &MAZE_BLUE,
        _ => &MAZE_REGULAR,
    }
}

/// The index in row order of the square in column `col` of row `row`.
pub open spec fn square_at(col: int, row: int) -> int {
    row * WIDTH + col
}

/// The chart of the layout of a level.
pub open spec fn spec_chart(level: u32) -> Chart {
    if level == 0 {
        Chart {
            gate1: square_at(13, 9),
            gate2: square_at(14, 9),
            fruit: square_at(13, 14),
            start: square_at(13, 18),
            house_first: square_at(12, 10),
            house_last: square_at(15, 12),
        }
    } else if level == 2 {
        Chart {
            gate1: square_at(13, 11),
            gate2: square_at(14, 11),
            fruit: square_at(13, 17),
            start: square_at(13, 23),
            house_first: square_at(12, 12),
            house_last: square_at(15, 15),
        }
    } else if level == 3 {
        Chart {
            gate1: square_at(13, 12),
            gate2: square_at(14, 12),
            fruit: square_at(13, 16),
            start: square_at(13, 23),
            house_first: square_at(12, 13),
            house_last: square_at(15, 14),
        }
    } else {
        Chart {
            gate1: square_at(13, 11),
            gate2: square_at(14, 11),
            fruit: square_at(13, 16),
            start: square_at(13, 21),
            house_first: square_at(12, 12),
            house_last: square_at(15, 14),
        }
    }
}

/// Number of dots in the layout of a level.
pub open spec fn spec_dots(level: u32) -> nat {
    if level == 0 {
        209
    } else if level == 2 {
        223
    } else if level == 3 {
        238
    } else {
        237
    }
}

/// The layout of a level is charted by the chart of that level.
pub open spec fn layout_charted(level: u32) -> bool {
    charted(chars_of(spec_layout(level)), spec_chart(level))
}

/// The small maze is charted: each of its rows is read off its text.
#[verifier::rlimit(100)]
proof fn lemma_small_charted()
    ensures
        layout_charted(0),
        rows_tally(chars_of(MAZE_SMALL@), '.', 24) == 209,
{
    reveal_strlit("############################");
    reveal_strlit("#............##............#");
    reveal_strlit("#.####.#####.##.#####.####.#");
    reveal_strlit("#P####.#####.##.#####.####P#");
    reveal_strlit("#..........................#");
    reveal_strlit("#.####.##.########.##.####.#");
    reveal_strlit("#......##....##....##......#");
    reveal_strlit("######.##### ## #####.######");
    reveal_strlit("     #.##          ##.#     ");
    reveal_strlit("     #.## ###--### ##.#     ");
    reveal_strlit("######.## # HHHH # ##.######");
    reveal_strlit(";;;;;;.   # HHHH #   .;;;;;;");
    reveal_strlit("     #.## ######## ##.#     ");
    reveal_strlit("     #.##    $     ##.#     ");
    reveal_strlit("######.## ######## ##.######");
    reveal_strlit("#P..##.......p........##..P#");
    reveal_strlit("###.##.##.########.##.##.###");
    reveal_strlit("#.##########.##.##########.#");
    let rows = chars_of(MAZE_SMALL@);
    assert(rows.len() == 24);
    assert forall|r: int| 0 <= r < 24 implies row_charted(rows, r, spec_chart(0)) by {}
    assert(rows_tally(rows, '.', 24) == 209) by {
        reveal_with_fuel(rows_tally, 32);
    }
}

/// The regular maze is charted: each of its rows is read off its text.
#[verifier::rlimit(100)]
proof fn lemma_regular_charted()
    ensures
        layout_charted(1),
        rows_tally(chars_of(MAZE_REGULAR@), '.', 29) == 237,
{
    reveal_strlit("############################");
    reveal_strlit("#............##............#");
    reveal_strlit("#.####.#####.##.#####.####.#");
    reveal_strlit("#P####.#####.##.#####.####P#");
    reveal_strlit("#..........................#");
    reveal_strlit("#.####.##.########.##.####.#");
    reveal_strlit("#......##....##....##......#");
    reveal_strlit("######.##### ## #####.######");
    reveal_strlit("     #.##          ##.#     ");
    reveal_strlit("     #.## ###--### ##.#     ");
    reveal_strlit("######.## # HHHH # ##.######");
    reveal_strlit(";;;;;;.   # HHHH #   .;;;;;;");
    reveal_strlit("     #.## ######## ##.#     ");
    reveal_strlit("     #.##    $     ##.#     ");
    reveal_strlit("######.## ######## ##.######");
    reveal_strlit("#P..##.......p........##..P#");
    reveal_strlit("###.##.##.########.##.##.###");
    reveal_strlit("#.##########.##.##########.#");
    let rows = chars_of(MAZE_REGULAR@);
    assert(rows.len() == 29);
    assert forall|r: int| 0 <= r < 29 implies row_charted(rows, r, spec_chart(1)) by {}
    assert(rows_tally(rows, '.', 29) == 237) by {
        reveal_with_fuel(rows_tally, 32);
    }
}

/// The pink maze is charted: each of its rows is read off its text.
#[verifier::rlimit(100)]
proof fn lemma_pink_charted()
    ensures
        layout_charted(2),
        rows_tally(chars_of(MAZE_PINK@), '.', 31) == 223,
{
    reveal_strlit("############################");
    reveal_strlit("#......##..........##......#");
    reveal_strlit("#P####.##.########.##.####P#");
    reveal_strlit("#.####.##.########.##.####.#");
    reveal_strlit("#..........................#");
    reveal_strlit("###.##.#####.##.#####.##.###");
    reveal_strlit(";;;.##.......##.......##.;;;");
    reveal_strlit("###.#####.########.#####.###");
    reveal_strlit("###.                    .###");
    reveal_strlit("###.##### ###--### #####.###");
    reveal_strlit("###.##### # HHHH # #####.###");
    reveal_strlit("###.##    # HHHH #    ##.###");
    reveal_strlit("###.## ## # HHHH # ## ##.###");
    reveal_strlit("###.## ## ######## ## ##.###");
    reveal_strlit(";;;.   ##    $     ##   .;;;");
    reveal_strlit("###.######## ## ########.###");
    reveal_strlit("###.......   ##   .......###");
    reveal_strlit("#............p.............#");
    reveal_strlit("#.####.#####.##.#####.####.#");
    reveal_strlit("#.####.##....##....##.####.#");
    let rows = chars_of(MAZE_PINK@);
    assert(rows.len() == 31);
    assert forall|r: int| 0 <= r < 31 implies row_charted(rows, r, spec_chart(2)) by {}
    assert(rows_tally(rows, '.', 31) == 223) by {
        reveal_with_fuel(rows_tally, 32);
    }
}

/// The blue maze is charted: each of its rows is read off its text.
#[verifier::rlimit(100)]
proof fn lemma_blue_charted()
    ensures
        layout_charted(3),
        rows_tally(chars_of(MAZE_BLUE@), '.', 31) == 238,
{
    reveal_strlit("############################");
    reveal_strlit("#..........................#");
    reveal_strlit("#.##.####.########.####.##.#");
    reveal_strlit("#P##.####.########.####.##P#");
    reveal_strlit("#.##.####.##....##.####.##.#");
    reveal_strlit("#.##......##.##.##......##.#");
    reveal_strlit("#.####.##.##.##.##.##.####.#");
    reveal_strlit("#......##....##....##......#");
    reveal_strlit("###.######## ## ########.###");
    reveal_strlit("###....##          ##....###");
    reveal_strlit("### ##.## ###--### ##.## ###");
    reveal_strlit(";;; ##.   # HHHH #   .## ;;;");
    reveal_strlit("######.## # HHHH # ##.######");
    reveal_strlit("######.## ######## ##.######");
    reveal_strlit(";;; ##.##    $     ##.##.;;;");
    reveal_strlit("### ##.##### ## #####.##.###");
    reveal_strlit("###....##### ## #####....###");
    reveal_strlit("###.##.##### ## #####.##.###");
    reveal_strlit("###.##....   ##   ....##.###");
    reveal_strlit("###.#####.## ## ##.#####.###");
    reveal_strlit("#.........## p  ##.........#");
    reveal_strlit("#.####.##.########.##.####.#");
    reveal_strlit("#.##...##..........##...##.#");
    reveal_strlit("#P##.#######.##.#######.##P#");
    reveal_strlit("#.##.#######.##.#######.##.#");
    let rows = chars_of(MAZE_BLUE@);
    assert(rows.len() == 31);
    assert forall|r: int| 0 <= r < 31 implies row_charted(rows, r, spec_chart(3)) by {}
    assert(rows_tally(rows, '.', 31) == 238) by {
        reveal_with_fuel(rows_tally, 32);
    }
}

/// Every built-in layout is a playable maze with the dots of its level.
pub proof fn lemma_layouts_playable(level: u32)
    ensures
        layout_charted(level),
        rows_outcome(chars_of(spec_layout(level))) is None,
        count(tiles_of(chars_of(spec_layout(level))), Square::Dot) == spec_dots(level),
{
    if level == 0 {
        lemma_small_charted();
    } else if level == 2 {
        lemma_pink_charted();
    } else if level == 3 {
        lemma_blue_charted();
    } else {
        lemma_regular_charted();
        assert(spec_layout(level) == spec_layout(1));
        assert(spec_chart(level) == spec_chart(1));
    }
    lemma_charted_playable(chars_of(spec_layout(level)), spec_chart(level));
    lemma_count_tally(chars_of(spec_layout(level)), Square::Dot);
}

} // verus!
