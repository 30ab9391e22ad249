use vstd::prelude::*;

verus! {

/// Width and height of the square playing field, in cells.
pub const GAME_FIELD_SIZE: u16 = 20;

/// A cell of the field, or a place on the screen.
#[derive(Clone, Copy, Debug, PartialEq, Eq, Structural)]
pub struct Pos {
    pub x: u16,
    pub y: u16,
}

impl Pos {
    /// Whether the position names a cell of the field.
    pub open spec fn in_field(self) -> bool {
        self.x < GAME_FIELD_SIZE && self.y < GAME_FIELD_SIZE
    }
}

/// One of the four directions a snake can face.
#[derive(Clone, Copy, Debug, PartialEq, Eq, Structural)]
pub enum Direction {
    Up,
    Right,
    Left,
    Down,
}

/// The reversed direction.
pub open spec fn opposite(d: Direction) -> Direction {
    match d {
        Direction::Up => Direction::Down,
        Direction::Down => Direction::Up,
        Direction::Left => Direction::Right,
        Direction::Right => Direction::Left,
    }
}

/// Where a cell's neighbour in direction `d` lies, with the field wrapping
/// around at both ends of each axis.
pub open spec fn step_spec(p: Pos, d: Direction) -> Pos {
    let n = GAME_FIELD_SIZE as int;
    match d {
        Direction::Right => Pos { x: ((p.x + 1) % n) as u16, y: p.y },
        Direction::Left => Pos { x: ((p.x + n - 1) % n) as u16, y: p.y },
        Direction::Down => Pos { x: p.x, y: ((p.y + 1) % n) as u16 },
        Direction::Up => Pos { x: p.x, y: ((p.y + n - 1) % n) as u16 },
    }
}

impl Direction {
    /// Whether `self` points the other way from `d`.
    pub open spec fn is_opposite_of_spec(self, d: Direction) -> bool {
        opposite(self) == d
    }

    /// A copy of the direction.
    pub fn copy(&self) -> (r: Direction)
        ensures
            r == *self,
    {
        match self {
            Direction::Right => Direction::Right,
            Direction::Left => Direction::Left,
            Direction::Up => Direction::Up,
            Direction::Down => Direction::Down,
        }
    }

    /// Whether `self` points the other way from `direction`.
    pub fn is_opposite_of(&self, direction: &Direction) -> (r: bool)
        ensures
            r == (opposite(*self) == *direction),
    {
        match self {
            Direction::Right => matches!(direction, Direction::Left),
            Direction::Left => matches!(direction, Direction::Right),
            Direction::Up => matches!(direction, Direction::Down),
            Direction::Down => matches!(direction, Direction::Up),
        }
    }
}

/// The neighbour of `p` in direction `d`, wrapping around the field's edges.
pub fn step(p: Pos, d: Direction) -> (r: Pos)
    requires
        p.in_field(),
    ensures
        r == step_spec(p, d),
        r.in_field(),
{
    let last = GAME_FIELD_SIZE - 1;
    match d {
        Direction::Right => Pos { x: if p.x < last { p.x + 1 } else { 0 }, y: p.y },
        Direction::Left => Pos { x: if p.x > 0 { p.x - 1 } else { last }, y: p.y },
        Direction::Down => Pos { x: p.x, y: if p.y < last { p.y + 1 } else { 0 } },
        Direction::Up => Pos { x: p.x, y: if p.y > 0 { p.y - 1 } else { last } },
    }
}

/// The larger of two numbers.
pub fn max(first_num: u16, second_num: u16) -> (r: u16)
    ensures
        r >= first_num,
        r >= second_num,
        r == first_num || r == second_num,
{
    if first_num < second_num {
        second_num
    } else {
        first_num
    }
}

} // verus!
