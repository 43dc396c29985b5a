//! What the host shows: where texts go and which picture stands for what.
//! Nothing here draws; these are the choices that drawing rests on.

use crate::geometry::Direction;
use crate::ghost::GhostState;
use crate::model::MAX_LIVES;
use crate::period::Period;
use crate::player::FRAMES;
use crate::square::Square;
use vstd::prelude::*;

verus! {

/// Column at which the panel beside the maze begins.
pub const LEFT_EDGE: u16 = 32;

/// Milliseconds of vulnerability below which an adversary shows that its
/// fright is about to end.
pub const FRIGHT_ENDING_MS: u128 = 2000;

/// Columns that a text on the maze is kept away from its right edge.
pub const TEXT_ROOM: usize = 4;

/// Column at which a text of `text_len` columns starts so as to stand in
/// the middle of the panel of a terminal of `cols` columns.
pub open spec fn spec_centered_x(cols: u16, text_len: u16) -> u16 {
    (cols.saturating_sub(LEFT_EDGE).saturating_sub(text_len) / 2 + LEFT_EDGE) as u16
}

/// Column at which a text starts so as to stand in the middle of the
/// panel. On a terminal too narrow for it the text starts at `LEFT_EDGE`.
#[verifier::when_used_as_spec(spec_centered_x)]
pub fn centered_x(cols: u16, text_len: u16) -> (x: u16)
    ensures
        x == spec_centered_x(cols, text_len),
        x >= LEFT_EDGE,
{
    cols.saturating_sub(LEFT_EDGE).saturating_sub(text_len) / 2 + LEFT_EDGE
}

/// Column at which a text of `text_len` columns starts so as to stand in
/// the middle of a maze of `width` columns.
pub fn message_column(width: usize, text_len: usize) -> (x: u16)
    requires
        text_len <= width <= u16::MAX,
    ensures
        x == (width - text_len) / 2,
{
    ((width - text_len) / 2) as u16
}

/// Column at which a text is drawn that belongs at column `col` of a maze
/// of `width` columns: `col`, but no nearer than `TEXT_ROOM` to the right
/// edge.
pub fn message_at_column(col: usize, width: usize) -> (x: u16)
    requires
        TEXT_ROOM <= width <= u16::MAX,
    ensures
        x == if col <= width - TEXT_ROOM {
            col
        } else {
            (width - TEXT_ROOM) as usize
        },
{
    if col <= width - TEXT_ROOM {
        col as u16
    } else {
        (width - TEXT_ROOM) as u16
    }
}

/// The character that is drawn for a tile.
pub open spec fn spec_tile_glyph(tile: Square) -> char {
    match tile {
        Square::Wall => '#',
        Square::Dot => '.',
        Square::Pill => '*',
        _ => ' ',
    }
}

/// The character that is drawn for a tile: walls, dots and pills show,
/// everything else is blank.
#[verifier::when_used_as_spec(spec_tile_glyph)]
pub fn tile_glyph(tile: Square) -> (c: char)
    ensures
        c == spec_tile_glyph(tile),
{
    match tile {
        Square::Wall => '#',
        Square::Dot => '.',
        Square::Pill => '*',
        _ => ' ',
    }
}

/// The six frames of the player's animation for a direction.
pub open spec fn player_frames(direction: Direction) -> Seq<char> {
    match direction {
        Direction::Left => seq!['}', ')', '>', '-', '>', ')'],
        Direction::Right => seq!['{', '(', '<', '-', '<', '('],
        Direction::Up => seq!['V', 'V', 'V', 'V', '|', '|'],
        Direction::Down => seq!['^', '^', '^', '^', '|', '|'],
    }
}

/// The character that is drawn for the player, by the direction that the
/// input asked for last and the frame of the animation.
pub fn player_glyph(direction: Direction, anim_frame: usize) -> (c: char)
    requires
        anim_frame < FRAMES,
    ensures
        c == player_frames(direction)[anim_frame as int],
{
    let frames = match direction {
        Direction::Left => ['}', ')', '>', '-', '>', ')'],
        Direction::Right => ['{', '(', '<', '-', '<', '('],
        Direction::Up => ['V', 'V', 'V', 'V', '|', '|'],
        Direction::Down => ['^', '^', '^', '^', '|', '|'],
    };
    assert(frames@ =~= player_frames(direction));
    frames[anim_frame]
}

/// The picture of an adversary.
pub open spec fn spec_ghost_glyph(
    state: GhostState,
    off_house: bool,
    edible_duration: u128,
    slot: usize,
) -> &'static str {
    if state == GhostState::Dead {
        "\u{1F440}"
    } else if off_house && 1 <= edible_duration < FRIGHT_ENDING_MS {
        "\u{1F47D}"
    } else if off_house && edible_duration > 0 {
        "\u{1F631}"
    } else if slot == 0 {
        "\u{1F47A}"
    } else if slot == 1 {
        "\u{1F479}"
    } else if slot == 2 {
        "\u{1F47B}"
    } else {
        "\u{1F383}"
    }
}

/// The picture of an adversary: eyes when eaten; off the house tiles a
/// frightened face while vulnerable, and another one when that is about
/// to end; else the face of its slot.
pub fn ghost_glyph(state: GhostState, off_house: bool, edible_duration: u128, slot: usize) -> (s:
    &'static str)
    ensures
        s@ == spec_ghost_glyph(state, off_house, edible_duration, slot)@,
{
    if state == GhostState::Dead {
        "\u{1F440}"
    } else if off_house && 1 <= edible_duration && edible_duration < FRIGHT_ENDING_MS {
        "\u{1F47D}"
    } else if off_house && edible_duration > 0 {
        "\u{1F631}"
    } else if slot == 0 {
        "\u{1F47A}"
    } else if slot == 1 {
        "\u{1F479}"
    } else if slot == 2 {
        "\u{1F47B}"
    } else {
        "\u{1F383}"
    }
}

/// The sign of the phase: a lamp during a chase, blanks otherwise.
pub fn period_glyph(period: Period) -> (s: &'static str)
    ensures
        s@ == (if period == Period::Chase {
            "\u{1F4A1}"
        } else {
            "  "
        })@,
{
    match period {
        Period::Chase => "\u{1F4A1}",
        Period::Scatter => "  ",
    }
}

/// How the lives are shown: one picture for each life, then blanks up to
/// `MAX_LIVES`.
pub fn lives_shown(lives: u32) -> (r: (usize, usize))
    requires
        lives <= MAX_LIVES,
    ensures
        r.0 == lives,
        r.1 == MAX_LIVES - lives,
{
    (lives as usize, (MAX_LIVES - lives) as usize)
}

/// The part of a running text of `len` characters that shows on a
/// terminal of `cols` columns when the text has moved on by `offset`: it
/// runs from the first index up to the second, around the end of the text
/// where the first is not below the second.
pub fn marquee_window(offset: usize, cols: u16, len: usize) -> (r: (usize, usize))
    requires
        len > 0,
        offset + cols <= usize::MAX,
    ensures
        r.0 == offset % len,
        r.1 == (cols.saturating_sub(1) + offset) % (len as int),
        r.0 < len && r.1 < len,
{
    (offset % len, (cols.saturating_sub(1) as usize + offset) % len)
}

/// The running text moves on by one character and starts over at its end.
pub fn marquee_next(offset: usize, len: usize) -> (r: usize)
    requires
        len > 0,
        offset < usize::MAX,
    ensures
        r == (offset + 1) % (len as int),
        r < len,
{
    (offset + 1) % len
}

} // verus!
