//! Board parameters: compile-time configuration the core reads but does not
//! own.  All lengths are in world units; every cell centre lands on whole
//! coordinates, so the grid/world transform in `grid` is exact.

use vstd::prelude::*;

verus! {

/// Number of rows on the board.
pub const BOARD_ROWS: i64 = 30;

/// Number of columns on the board.
pub const BOARD_COLS: i64 = 40;

/// Side of one square cell.
pub const CELL_SIZE: i64 = 20;

/// Offset from a cell's corner to its centre: half of `CELL_SIZE`.
pub const HALF_CELL: i64 = 10;

/// Width of the playing field: `BOARD_COLS` cells.
pub const BOARD_WIDTH: i64 = BOARD_COLS * CELL_SIZE;

/// Height of the playing field: `BOARD_ROWS` cells.
pub const BOARD_HEIGHT: i64 = BOARD_ROWS * CELL_SIZE;

/// World x of the right wall: half the board width, the board being centred
/// on the world origin.
pub const WALL_RIGHT: i64 = 400;

/// World x of the left wall.
pub const WALL_LEFT: i64 = -WALL_RIGHT;

/// World y of the top wall: half the board height.
pub const WALL_TOP: i64 = 300;

/// World y of the bottom wall.
pub const WALL_BELOW: i64 = -WALL_TOP;

/// Starting body length of the snake, granted as pending growth.
pub const SNAKE_DEFAULT_LEN: usize = 6;

} // verus!
