//! Geometry of the board: a square of ten by ten cells holding a fleet of
//! seventeen ship cells.

use vstd::prelude::*;

verus! {

/// Side length of the square board.
pub const BOARD_SIZE: u32 = 10;

/// Number of cells on the board.
pub const CELL_COUNT: u32 = 100;

/// Number of ship cells in a fleet; a player who has received this many hits
/// has lost.
pub const FLEET_CELLS: u32 = 17;

/// Whether `(x, y)` names a cell of the board.
pub open spec fn valid_coordinate(x: u32, y: u32) -> bool {
    x < 10 && y < 10
}

/// Position of the cell `(x, y)` in a shot mask.
pub open spec fn cell_index(x: u32, y: u32) -> int {
    x * 10 + y
}

/// Decides whether `(x, y)` names a cell of the board.
pub fn in_bounds(x: u32, y: u32) -> (r: bool)
    ensures
        r == valid_coordinate(x, y),
{
    x < BOARD_SIZE && y < BOARD_SIZE
}

/// Computes the position of the cell `(x, y)` in a shot mask.
pub fn mask_index(x: u32, y: u32) -> (i: u32)
    requires
        valid_coordinate(x, y),
    ensures
        i == cell_index(x, y),
        i < CELL_COUNT,
{
    x * BOARD_SIZE + y
}

/// Distinct cells of the board have distinct mask positions.
pub proof fn cell_index_injective(x1: u32, y1: u32, x2: u32, y2: u32)
    requires
        valid_coordinate(x1, y1),
        valid_coordinate(x2, y2),
        cell_index(x1, y1) == cell_index(x2, y2),
    ensures
        x1 == x2,
        y1 == y2,
{
}

/// Every mask position below one hundred belongs to exactly one cell of the
/// board, and every cell of the board has a position below one hundred.
pub proof fn cell_index_bijective(i: int)
    requires
        0 <= i < 100,
    ensures
        valid_coordinate((i / 10) as u32, (i % 10) as u32),
        cell_index((i / 10) as u32, (i % 10) as u32) == i,
        forall|x: u32, y: u32|
            valid_coordinate(x, y) ==> 0 <= #[trigger] cell_index(x, y) < 100,
        forall|x: u32, y: u32|
            valid_coordinate(x, y) && #[trigger] cell_index(x, y) == i ==> x == i / 10 && y == i
                % 10,
{
}

} // verus!
