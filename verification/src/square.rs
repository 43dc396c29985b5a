//! Tile kinds and the legend that maps layout characters to them.

use vstd::prelude::*;

verus! {

/// What one square of the maze holds.
#[derive(Debug, Copy, Clone, Hash, PartialEq, Eq, Structural)]
pub enum Square {
    Empty,
    Dot,
    Pill,
    Fruit,
    Start,
    Wall,
    Gate,
    House,
    Tunnel,
}

impl Square {
    /// The legend: the tile that a layout character stands for, if any.
    pub open spec fn of_char(c: char) -> Option<Square> {
        if c == ' ' {
            Some(Square::Empty)
        } else if c == '.' {
            Some(Square::Dot)
        } else if c == 'P' {
            Some(Square::Pill)
        } else if c == '$' {
            Some(Square::Fruit)
        } else if c == 'p' {
            Some(Square::Start)
        } else if c == '#' {
            Some(Square::Wall)
        } else if c == '-' {
            Some(Square::Gate)
        } else if c == 'H' {
            Some(Square::House)
        } else if c == ';' {
            Some(Square::Tunnel)
        } else {
            None
        }
    }

    /// The layout character of a tile.
    pub open spec fn spec_to_char(&self) -> char {
        match self {
            Square::Empty => ' ',
            Square::Dot => '.',
            Square::Pill => 'P',
            Square::Fruit => '$',
            Square::Start => 'p',
            Square::Wall => '#',
            Square::Gate => '-',
            Square::House => 'H',
            Square::Tunnel => ';',
        }
    }

    /// A tile that the player and the adversaries may step on: anything
    /// but `Wall`, `Gate` and `House`.
    pub open spec fn spec_is_open(&self) -> bool {
        !(self == Square::Wall || self == Square::Gate || self == Square::House)
    }

    /// Reads one character of a layout. Characters outside the legend give
    /// `None`.
    pub fn from_char(c: char) -> (r: Option<Square>)
        ensures
            r == Square::of_char(c),
    {
        if c == ' ' {
            Some(Square::Empty)
        } else if c == '.' {
            Some(Square::Dot)
        } else if c == 'P' {
            Some(Square::Pill)
        } else if c == '$' {
            Some(Square::Fruit)
        } else if c == 'p' {
            Some(Square::Start)
        } else if c == '#' {
            Some(Square::Wall)
        } else if c == '-' {
            Some(Square::Gate)
        } else if c == 'H' {
            Some(Square::House)
        } else if c == ';' {
            Some(Square::Tunnel)
        } else {
            None
        }
    }

    /// The character that stands for this tile in a layout.
    #[verifier::when_used_as_spec(spec_to_char)]
    pub fn to_char(&self) -> (c: char)
        ensures
            c == self.spec_to_char(),
    {
        match self {
            Square::Empty => ' ',
            Square::Dot => '.',
            Square::Pill => 'P',
            Square::Fruit => '$',
            Square::Start => 'p',
            Square::Wall => '#',
            Square::Gate => '-',
            Square::House => 'H',
            Square::Tunnel => ';',
        }
    }

    /// Whether the player and the adversaries may step on this tile.
    #[verifier::when_used_as_spec(spec_is_open)]
    pub fn is_open(&self) -> (b: bool)
        ensures
            b == self.spec_is_open(),
    {
        match self {
            Square::Wall | Square::Gate | Square::House => false,
            _ => true,
        }
    }
}

/// Writing a tile as its character and reading it back gives the tile.
pub proof fn lemma_legend_round_trip(s: Square)
    ensures
        Square::of_char(s.spec_to_char()) == Some(s),
{
}

/// Two tiles with the same character are the same tile.
pub proof fn lemma_legend_injective(a: Square, b: Square)
    requires
        a.spec_to_char() == b.spec_to_char(),
    ensures
        a == b,
{
    lemma_legend_round_trip(a);
    lemma_legend_round_trip(b);
}

} // verus!
