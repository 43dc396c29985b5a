//! What each adversary aims at: its corner when scattering and its target
//! when chasing.

use crate::geometry::{Direction, Position, WIDTH};
use vstd::prelude::*;

verus! {

/// Squared distance from which the drifter gives up the player.
pub const SHY_DISTANCE_SQR: usize = 64;

/// Number of squares that the ambusher aims ahead of the player.
pub const LEAD: usize = 4;

/// The part that an adversary plays, by the corner of the house on which
/// it starts.
#[derive(Debug, Copy, Clone, PartialEq, Eq, Structural)]
pub enum Role {
    /// Upper left corner: aims at the player.
    Chaser,
    /// Upper right corner: aims ahead of the player.
    Ambusher,
    /// Lower left corner: aims halfway between the player and the
    /// ambusher.
    Flanker,
    /// Lower right corner: aims at the player while near, at its own
    /// corner while far.
    Drifter,
}

impl Role {
    /// The slot of the role among the four adversaries.
    pub open spec fn spec_index(&self) -> usize {
        match self {
            Role::Chaser => 0,
            Role::Ambusher => 1,
            Role::Flanker => 2,
            Role::Drifter => 3,
        }
    }

    /// The role of a slot.
    pub open spec fn of_index(i: int) -> Role {
        if i == 0 {
            Role::Chaser
        } else if i == 1 {
            Role::Ambusher
        } else if i == 2 {
            Role::Flanker
        } else {
            Role::Drifter
        }
    }

    /// The slot of the role among the four adversaries.
    #[verifier::when_used_as_spec(spec_index)]
    pub fn index(&self) -> (i: usize)
        ensures
            i == self.spec_index(),
            i < 4,
            Role::of_index(i as int) == *self,
    {
        match self {
            Role::Chaser => 0,
            Role::Ambusher => 1,
            Role::Flanker => 2,
            Role::Drifter => 3,
        }
    }

    /// The role of slot `i`, for `i` below four.
    pub fn from_index(i: usize) -> (r: Option<Role>)
        ensures
            r == if i < 4 {
                Some(Role::of_index(i as int))
            } else {
                None
            },
    {
        match i {
            0 => Some(Role::Chaser),
            1 => Some(Role::Ambusher),
            2 => Some(Role::Flanker),
            3 => Some(Role::Drifter),
            _ => None,
        }
    }
}

/// The corner to which a role retreats on a board of `height` rows: two
/// columns in on the first row, two columns from the end of the first row,
/// the start of row 24, and the last column of the row below the board.
pub open spec fn spec_scatter_corner(role: Role, height: int) -> Position {
    match role {
        Role::Chaser => Position(2),
        Role::Ambusher => Position((WIDTH - 3) as usize),
        Role::Flanker => Position((24 * WIDTH) as usize),
        Role::Drifter => Position((height * WIDTH + WIDTH - 1) as usize),
    }
}

/// The square `LEAD` steps ahead of `pos` in direction `moving`. To the
/// left and upwards it stops at the edge, to the right at the last column;
/// downwards it is not held back.
pub open spec fn spec_ahead(pos: Position, moving: Direction) -> Position {
    let (col, row) = (pos.spec_col(), pos.spec_row());
    match moving {
        Direction::Left => Position((row * WIDTH + if col >= LEAD {
            col - LEAD
        } else {
            0
        }) as usize),
        Direction::Right => Position((row * WIDTH + if col + LEAD <= WIDTH - 1 {
            col + LEAD
        } else {
            WIDTH - 1
        }) as usize),
        Direction::Up => Position(((if row >= LEAD {
            row - LEAD
        } else {
            0
        }) * WIDTH + col) as usize),
        Direction::Down => Position(((row + LEAD) * WIDTH + col) as usize),
    }
}

/// What the drifter aims at when its squared distance from the player is
/// `dist_sqr`.
pub open spec fn spec_drifter_target(
    dist_sqr: int,
    player: Position,
    corner: Position,
) -> Position {
    if dist_sqr < SHY_DISTANCE_SQR {
        player
    } else {
        corner
    }
}

/// What a role aims at while chasing, given the player's square and
/// heading, the ambusher's square, the square of the adversary itself and
/// the height of the board.
pub open spec fn spec_chase_target(
    role: Role,
    player: Position,
    moving: Direction,
    ambusher: Position,
    own: Position,
    height: int,
) -> Position {
    match role {
        Role::Chaser => player,
        Role::Ambusher => spec_ahead(player, moving),
        Role::Flanker => Position(player.spec_average(ambusher) as usize),
        Role::Drifter => spec_drifter_target(
            player.spec_dist_sqr(own),
            player,
            spec_scatter_corner(Role::Drifter, height),
        ),
    }
}

/// The corner to which a role retreats while scattering.
pub fn scatter_corner(role: Role, height: usize) -> (p: Position)
    requires
        height * WIDTH + WIDTH <= usize::MAX,
    ensures
        p == spec_scatter_corner(role, height as int),
{
    match role {
        Role::Chaser => Position::from_xy(2, 0),
        Role::Ambusher => Position::from_xy(WIDTH - 3, 0),
        Role::Flanker => Position::from_xy(0, 24),
        Role::Drifter => Position::from_xy(WIDTH - 1, height),
    }
}

/// The square `LEAD` steps ahead of the player.
pub fn ahead(pos: Position, moving: Direction) -> (p: Position)
    requires
        pos.0 + LEAD * WIDTH <= usize::MAX,
    ensures
        p == spec_ahead(pos, moving),
{
    let (col, row): (usize, usize) = (pos.col(), pos.row());
    match moving {
        Direction::Left => Position::from_xy(
            if col >= LEAD {
                col - LEAD
            } else {
                0
            },
            row,
        ),
        Direction::Right => Position::from_xy(
            if col + LEAD <= WIDTH - 1 {
                col + LEAD
            } else {
                WIDTH - 1
            },
            row,
        ),
        Direction::Up => Position::from_xy(
            col,
            if row >= LEAD {
                row - LEAD
            } else {
                0
            },
        ),
        Direction::Down => Position::from_xy(col, row + LEAD),
    }
}

/// What the drifter aims at: the player while its squared distance is below
/// `SHY_DISTANCE_SQR`, its corner otherwise.
pub fn drifter_target(dist_sqr: usize, player: Position, corner: Position) -> (p: Position)
    ensures
        p == spec_drifter_target(dist_sqr as int, player, corner),
{
    if dist_sqr < SHY_DISTANCE_SQR {
        player
    } else {
        corner
    }
}

/// What a role aims at while chasing.
pub fn chase_target(
    role: Role,
    player: Position,
    moving: Direction,
    ambusher: Position,
    own: Position,
    height: usize,
) -> (p: Position)
    requires
        player.0 + LEAD * WIDTH <= usize::MAX,
        height * WIDTH + WIDTH <= usize::MAX,
    ensures
        p == spec_chase_target(role, player, moving, ambusher, own, height as int),
{
    match role {
        Role::Chaser => player,
        Role::Ambusher => ahead(player, moving),
        Role::Flanker => player.average(ambusher),
        Role::Drifter => {
            let corner = scatter_corner(Role::Drifter, height);
            let (r1, r2): (usize, usize) = (player.row(), own.row());
            let apart: usize = if r1 >= r2 {
                r1 - r2
            } else {
                r2 - r1
            };
            if apart >= 8 {
                assert(player.spec_dist_sqr(own) >= SHY_DISTANCE_SQR) by (nonlinear_arith)
                    requires
                        player.spec_dist_sqr(own) >= apart * apart,
                        apart >= 8,
                ;
                corner
            } else {
                assert(player.spec_dist_sqr(own) <= 27 * 27 + 7 * 7) by (nonlinear_arith)
                    requires
                        player.spec_dist_sqr(own) == crate::geometry::gap(
                            player.spec_col(),
                            own.spec_col(),
                        ) * crate::geometry::gap(player.spec_col(), own.spec_col()) + apart
                            * apart,
                        0 <= crate::geometry::gap(player.spec_col(), own.spec_col()) <= 27,
                        0 <= apart <= 7,
                ;
                drifter_target(player.dist_sqr(own), player, corner)
            }
        },
    }
}

} // verus!
