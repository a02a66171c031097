//! Grid geometry: cells, headings and one-cell moves.

use vstd::prelude::*;

verus! {

/// Number of columns of the playing field.
pub const GRID_WIDTH: i32 = 20;

/// Number of rows of the playing field.
pub const GRID_HEIGHT: i32 = 20;

/// A cell as (column, row); row 0 is the top edge.
pub type Position = (i32, i32);

/// The heading of the snake.
#[derive(Clone, Copy, Debug, PartialEq, Eq, Structural)]
pub enum Direction {
    Up,
    Down,
    Left,
    Right,
}

/// True when `p` lies on the grid.
pub open spec fn in_bounds(p: Position) -> bool {
    0 <= p.0 < GRID_WIDTH && 0 <= p.1 < GRID_HEIGHT
}

/// The direction that points the other way.
pub open spec fn opposite_spec(d: Direction) -> Direction {
    match d {
        Direction::Up => Direction::Down,
        Direction::Down => Direction::Up,
        Direction::Left => Direction::Right,
        Direction::Right => Direction::Left,
    }
}

/// Column offset of one step in direction `d`.
pub open spec fn dx(d: Direction) -> int {
    match d {
        Direction::Left => -1,
        Direction::Right => 1,
        _ => 0,
    }
}

/// Row offset of one step in direction `d`.
pub open spec fn dy(d: Direction) -> int {
    match d {
        Direction::Up => -1,
        Direction::Down => 1,
        _ => 0,
    }
}

/// The cell reached from `p` after `n` steps in direction `d`, as mathematical integers.
pub open spec fn offset(p: Position, d: Direction, n: int) -> (int, int) {
    (p.0 + n * dx(d), p.1 + n * dy(d))
}

/// The cell one step from `p` in direction `d`.
pub open spec fn step_spec(p: Position, d: Direction) -> Position {
    (offset(p, d, 1).0 as i32, offset(p, d, 1).1 as i32)
}

impl Direction {
    /// The direction that points the other way.
    pub fn opposite(self) -> (r: Direction)
        ensures
            r == opposite_spec(self),
    {
        match self {
            Direction::Up => Direction::Down,
            Direction::Down => Direction::Up,
            Direction::Left => Direction::Right,
            Direction::Right => Direction::Left,
        }
    }
}

/// The cell one step from the on-grid cell `p` in direction `d`; it may lie
/// just outside the grid.
pub fn step(p: Position, d: Direction) -> (r: Position)
    requires
        in_bounds(p),
    ensures
        r == step_spec(p, d),
        r.0 == offset(p, d, 1).0,
        r.1 == offset(p, d, 1).1,
{
    match d {
        Direction::Up => (p.0, p.1 - 1),
        Direction::Down => (p.0, p.1 + 1),
        Direction::Left => (p.0 - 1, p.1),
        Direction::Right => (p.0 + 1, p.1),
    }
}

} // verus!
