//! Board geometry: discrete cells, compass directions, and the exact affine
//! transform between grid cells and the renderer's world space.

use vstd::prelude::*;

use rand::Rng;

use crate::constant::{BOARD_COLS, BOARD_ROWS, CELL_SIZE, HALF_CELL, WALL_LEFT, WALL_TOP};

verus! {

/// A discrete cell of the game board: `(0, 0)` is the top-left cell, `row`
/// grows downward and `col` grows to the right.  Cells are bounded to the
/// board by convention, not by construction.
#[derive(Clone, Copy, Debug, PartialEq, Eq, Structural)]
pub struct Position {
    pub row: i64,
    pub col: i64,
}

/// A point of the continuous space the renderer draws in.  Every cell centre
/// lands on whole coordinates, so the transform below loses nothing.
#[derive(Clone, Copy, Debug, PartialEq, Eq, Structural)]
pub struct WorldPoint {
    pub x: i64,
    pub y: i64,
}

/// A compass direction the snake can head towards.
#[derive(Clone, Copy, Debug, PartialEq, Eq, Structural)]
pub enum Towards {
    Left,
    Right,
    Up,
    Down,
}

/// Whether two directions point opposite ways; a symmetric relation.
pub open spec fn is_opposite(a: Towards, b: Towards) -> bool {
    b == a.opposite()
}

impl Towards {
    /// The direction pointing the other way.
    pub open spec fn opposite(self) -> Towards {
        match self {
            Towards::Left => Towards::Right,
            Towards::Right => Towards::Left,
            Towards::Up => Towards::Down,
            Towards::Down => Towards::Up,
        }
    }

    /// Row component of the unit step taken when heading this way.
    pub open spec fn delta_row(self) -> int {
        match self {
            Towards::Down => 1,
            Towards::Up => -1,
            Towards::Left => 0,
            Towards::Right => 0,
        }
    }

    /// Column component of the unit step taken when heading this way.
    pub open spec fn delta_col(self) -> int {
        match self {
            Towards::Down => 0,
            Towards::Up => 0,
            Towards::Left => -1,
            Towards::Right => 1,
        }
    }

    /// Whether `self` and `towards` point opposite ways.
    pub fn oppose(self, towards: Towards) -> (r: bool)
        ensures
            r == is_opposite(self, towards),
    {
        matches!(
            (self, towards),
            (Towards::Left, Towards::Right)
                | (Towards::Right, Towards::Left)
                | (Towards::Up, Towards::Down)
                | (Towards::Down, Towards::Up)
        )
    }

    /// The unit step taken when heading this way.
    pub fn delta(self) -> (d: Position)
        ensures
            d.row == self.delta_row(),
            d.col == self.delta_col(),
    {
        match self {
            Towards::Down => Position { row: 1, col: 0 },
            Towards::Up => Position { row: -1, col: 0 },
            Towards::Left => Position { row: 0, col: -1 },
            Towards::Right => Position { row: 0, col: 1 },
        }
    }
}

/// World x-coordinate of the centre of a cell in column `col`.
pub open spec fn world_x(col: int) -> int {
    CELL_SIZE * col + WALL_LEFT + HALF_CELL
}

/// World y-coordinate of the centre of a cell in row `row`; the world y-axis
/// grows upward while rows grow downward.
pub open spec fn world_y(row: int) -> int {
    WALL_TOP - HALF_CELL - CELL_SIZE * row
}

/// Relies on rand's `thread_rng` and `Rng::gen_range`: a draw from the
/// non-empty range `0..bound` lies below `bound`.
#[verifier::external_body]
fn sample_below(bound: u64) -> (r: u64)
    requires
        bound > 0,
    ensures
        r < bound,
{
    rand::thread_rng().gen_range(0..bound)
}

/// Exact division of a lattice offset by the cell size.
fn div_cell(d: i64) -> (q: i64)
    requires
        d as int % CELL_SIZE as int == 0,
    ensures
        CELL_SIZE * q == d,
{
    if d >= 0 {
        ((d as u64) / (CELL_SIZE as u64)) as i64
    } else {
        let neg: u64 = (-d) as u64;
        -((neg / (CELL_SIZE as u64)) as i64)
    }
}

impl Position {
    /// Whether the cell lies on the board.
    pub open spec fn in_board(self) -> bool {
        0 <= self.row < BOARD_ROWS && 0 <= self.col < BOARD_COLS
    }

    /// Component-wise sum, used to apply a direction's unit step.
    pub fn plus(self, other: Position) -> (r: Position)
        requires
            i64::MIN <= self.row + other.row <= i64::MAX,
            i64::MIN <= self.col + other.col <= i64::MAX,
        ensures
            r.row == self.row + other.row,
            r.col == self.col + other.col,
    {
        Position { row: self.row + other.row, col: self.col + other.col }
    }

    /// World point of the cell's centre; exact, no rounding.
    pub fn translation(self) -> (w: WorldPoint)
        requires
            i64::MIN <= CELL_SIZE * self.col <= i64::MAX,
            i64::MIN <= world_x(self.col as int) <= i64::MAX,
            i64::MIN <= CELL_SIZE * self.row <= i64::MAX,
            i64::MIN <= world_y(self.row as int) <= i64::MAX,
        ensures
            w.x == world_x(self.col as int),
            w.y == world_y(self.row as int),
    {
        WorldPoint {
            x: CELL_SIZE * self.col + (WALL_LEFT + HALF_CELL),
            y: (WALL_TOP - HALF_CELL) - CELL_SIZE * self.row,
        }
    }

    /// The cell whose centre is the given world point: the inverse of
    /// `translation` on the grid lattice.
    pub fn from_translation(w: WorldPoint) -> (p: Position)
        requires
            i64::MIN <= w.x - (WALL_LEFT + HALF_CELL) <= i64::MAX,
            i64::MIN <= (WALL_TOP - HALF_CELL) - w.y <= i64::MAX,
            (w.x - (WALL_LEFT + HALF_CELL)) % (CELL_SIZE as int) == 0,
            ((WALL_TOP - HALF_CELL) - w.y) % (CELL_SIZE as int) == 0,
        ensures
            world_x(p.col as int) == w.x,
            world_y(p.row as int) == w.y,
    {
        let dx: i64 = w.x - (WALL_LEFT + HALF_CELL);
        let dy: i64 = (WALL_TOP - HALF_CELL) - w.y;
        let col: i64 = div_cell(dx);
        let row: i64 = div_cell(dy);
        Position { row, col }
    }

    /// A cell drawn uniformly from the board, each axis independently below
    /// its own bound.
    pub fn random() -> (p: Position)
        ensures
            p.in_board(),
    {
        let row = sample_below(BOARD_ROWS as u64);
        let col = sample_below(BOARD_COLS as u64);
        Position { row: row as i64, col: col as i64 }
    }
}

/// Row displacement of a sequence of headings, first heading first.
pub open spec fn path_row(dirs: Seq<Towards>) -> int
    decreases dirs.len(),
{
    if dirs.len() == 0 {
        0
    } else {
        dirs[0].delta_row() + path_row(dirs.drop_first())
    }
}

/// Column displacement of a sequence of headings, first heading first.
pub open spec fn path_col(dirs: Seq<Towards>) -> int
    decreases dirs.len(),
{
    if dirs.len() == 0 {
        0
    } else {
        dirs[0].delta_col() + path_col(dirs.drop_first())
    }
}

/// Head row after applying the headings one advance at a time from `start`.
pub open spec fn walk_row(start: int, dirs: Seq<Towards>) -> int
    decreases dirs.len(),
{
    if dirs.len() == 0 {
        start
    } else {
        walk_row(start + dirs[0].delta_row(), dirs.drop_first())
    }
}

/// Head column after applying the headings one advance at a time from `start`.
pub open spec fn walk_col(start: int, dirs: Seq<Towards>) -> int
    decreases dirs.len(),
{
    if dirs.len() == 0 {
        start
    } else {
        walk_col(start + dirs[0].delta_col(), dirs.drop_first())
    }
}

/// Law: the head position after any number of advances equals the starting
/// position plus the vector sum of the headings applied, in order.
pub proof fn lemma_walk_is_path_sum(start_row: int, start_col: int, dirs: Seq<Towards>)
    ensures
        walk_row(start_row, dirs) == start_row + path_row(dirs),
        walk_col(start_col, dirs) == start_col + path_col(dirs),
    decreases dirs.len(),
{
    if dirs.len() > 0 {
        lemma_walk_is_path_sum(
            start_row + dirs[0].delta_row(),
            start_col + dirs[0].delta_col(),
            dirs.drop_first(),
        );
    }
}

/// Law (round trip): a cell's world point determines the cell, so translating
/// to world space and back recovers the original coordinate exactly.
pub proof fn lemma_translation_round_trip(r1: int, c1: int, r2: int, c2: int)
    requires
        world_x(c1) == world_x(c2),
        world_y(r1) == world_y(r2),
    ensures
        r1 == r2,
        c1 == c2,
{
}

} // verus!
