//! The data model: teams, positions, directions, units, the board, and the
//! reasons a move request can be rejected.

use vstd::prelude::*;

verus! {

/// A unit's team affiliation. No behavior beyond identity comparison.
#[derive(Debug, PartialEq, Eq, Structural, Copy, Clone)]
pub enum Team {
    Red,
    Blue,
    Green,
}

/// A cell of the board: a pair of non-negative coordinates, compared by
/// component. The origin is the top-left corner.
#[derive(Debug, PartialEq, Eq, Structural, Copy, Clone)]
pub struct Position {
    pub x: u32,
    pub y: u32,
}

/// One of the four axis-aligned movement requests. `Right` adds one to `x`,
/// `Left` subtracts one, `Down` adds one to `y`, and `Up` subtracts one
/// (the origin is the top-left corner, so `Up` decreases `y`).
#[derive(Debug, PartialEq, Eq, Structural, Copy, Clone)]
pub enum Direction {
    Up,
    Down,
    Left,
    Right,
}

/// A mobile unit: health, an action-point resource, a team, an attack radius
/// (stored but unused by the movement engine), a position, a display name,
/// and a numeric identifier that is immutable for the unit's lifetime.
#[derive(Debug, Clone)]
pub struct Tank {
    pub life: u8,
    pub action_points: u8,
    pub team: Team,
    pub range: u8,
    pub position: Position,
    pub name: String,
    pub id: u32,
}

/// The fixed rectangular extent of the playing field. A position `(x, y)` lies
/// on the board exactly when `x < length` and `y < height`.
pub struct Board {
    pub length: u32,
    pub height: u32,
}

/// Why a move request was rejected. Every variant is recoverable and leaves
/// the game unchanged.
#[derive(Debug, PartialEq, Eq, Structural, Copy, Clone)]
pub enum MoveError {
    /// No unit carries the requested identifier.
    UnitNotFound,
    /// The requested step would leave the board extent.
    OutOfBounds { direction: Direction, from_position: Position },
    /// The destination cell is already held by a unit.
    Occupied { direction: Direction, from_position: Position },
}

/// Whether a unit standing at `p` may take one step in direction `d` without
/// leaving the board: the coordinate moved toward an edge must stay strictly
/// inside the bound, and a coordinate at zero cannot be decreased.
pub open spec fn step_allowed(board: Board, p: Position, d: Direction) -> bool {
    match d {
        Direction::Right => p.x + 1 < board.length,
        Direction::Left => p.x >= 1,
        Direction::Down => p.y + 1 < board.height,
        Direction::Up => p.y >= 1,
    }
}

/// The cell one step from `p` in direction `d`. Meaningful only when
/// `step_allowed` holds for the same arguments.
pub open spec fn step_dest(p: Position, d: Direction) -> Position {
    match d {
        Direction::Right => Position { x: (p.x + 1) as u32, y: p.y },
        Direction::Left => Position { x: (p.x - 1) as u32, y: p.y },
        Direction::Down => Position { x: p.x, y: (p.y + 1) as u32 },
        Direction::Up => Position { x: p.x, y: (p.y - 1) as u32 },
    }
}

/// The direction that undoes one step in `d`.
pub open spec fn opposite(d: Direction) -> Direction {
    match d {
        Direction::Right => Direction::Left,
        Direction::Left => Direction::Right,
        Direction::Down => Direction::Up,
        Direction::Up => Direction::Down,
    }
}

/// Whether `p` stands exactly at the boundary coordinate for direction `d`:
/// the coordinate from which one more step in `d` leaves the board.
pub open spec fn at_edge(board: Board, p: Position, d: Direction) -> bool {
    match d {
        Direction::Right => p.x + 1 == board.length,
        Direction::Left => p.x == 0,
        Direction::Down => p.y + 1 == board.height,
        Direction::Up => p.y == 0,
    }
}

/// `t` with its position replaced by `p` and every other field kept.
pub open spec fn with_position(t: Tank, p: Position) -> Tank {
    Tank {
        life: t.life,
        action_points: t.action_points,
        team: t.team,
        range: t.range,
        position: p,
        name: t.name,
        id: t.id,
    }
}

impl Tank {
    /// Create a unit from caller-supplied values, stored unchanged. Callers
    /// are responsible for identifier uniqueness and for the validity of the
    /// starting position.
    pub fn new(
        life: u8,
        action_points: u8,
        team: Team,
        range: u8,
        position: Position,
        name: String,
        id: u32,
    ) -> (t: Tank)
        ensures
            t == (Tank { life, action_points, team, range, position, name, id }),
    {
        Tank { life, action_points, team, range, position, name, id }
    }
}

} // verus!
