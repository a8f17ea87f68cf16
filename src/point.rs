use vstd::prelude::*;

use crate::direction::Direction;
use crate::{CELL_PIXELS, FIELD_CELLS, WINDOW_HEIGHT, WINDOW_WIDTH};

verus! {

/// A cell of the grid; `y` grows upwards.
#[derive(Clone, Copy, Debug, PartialEq, Eq, Structural)]
pub struct Point {
    pub x: i32,
    pub y: i32,
}

/// Whether `p` lies on the playing field.
pub open spec fn in_grid(p: Point) -> bool {
    0 <= p.x < FIELD_CELLS && 0 <= p.y < FIELD_CELLS
}

/// Whether the neighbour of `p` in any direction is representable.
pub open spec fn can_step(p: Point) -> bool {
    i32::MIN < p.x < i32::MAX && i32::MIN < p.y < i32::MAX
}

/// The cell one unit away from `p` in direction `d`.
pub open spec fn neighbour(p: Point, d: Direction) -> Point {
    match d {
        Direction::UP => Point { x: p.x, y: (p.y + 1) as i32 },
        Direction::DOWN => Point { x: p.x, y: (p.y - 1) as i32 },
        Direction::RIGHT => Point { x: (p.x + 1) as i32, y: p.y },
        Direction::LEFT => Point { x: (p.x - 1) as i32, y: p.y },
    }
}

/// Left edge of the field in pixels: the field is centred in the window.
pub open spec fn field_left() -> int {
    WINDOW_WIDTH / 2 - FIELD_CELLS * CELL_PIXELS / 2
}

/// Top edge of the field in pixels.
pub open spec fn field_top() -> int {
    WINDOW_HEIGHT / 2 - FIELD_CELLS * CELL_PIXELS / 2
}

impl Point {
    pub fn new(x: i32, y: i32) -> (r: Point)
        ensures
            r == (Point { x, y }),
    {
        Point { x, y }
    }

    /// Whether the cell lies on the playing field.
    pub fn on_field(&self) -> (r: bool)
        ensures
            r == in_grid(*self),
    {
        0 <= self.x && self.x < FIELD_CELLS && 0 <= self.y && self.y < FIELD_CELLS
    }

    /// The neighbouring cell in direction `d`.
    pub fn step(&self, d: Direction) -> (r: Point)
        requires
            can_step(*self),
        ensures
            r == neighbour(*self, d),
    {
        match d {
            Direction::UP => Point { x: self.x, y: self.y + 1 },
            Direction::DOWN => Point { x: self.x, y: self.y - 1 },
            Direction::RIGHT => Point { x: self.x + 1, y: self.y },
            Direction::LEFT => Point { x: self.x - 1, y: self.y },
        }
    }

    /// Top-left pixel of the cell's square on screen. Pixel rows grow
    /// downwards while grid rows grow upwards.
    pub fn pixel_origin(&self) -> (r: (i32, i32))
        requires
            in_grid(*self),
        ensures
            r.0 == field_left() + self.x * CELL_PIXELS,
            r.1 == field_top() + (FIELD_CELLS * CELL_PIXELS - (self.y + 1) * CELL_PIXELS),
    {
        let left: i32 = WINDOW_WIDTH / 2 - FIELD_CELLS * CELL_PIXELS / 2;
        let top: i32 = WINDOW_HEIGHT / 2 - FIELD_CELLS * CELL_PIXELS / 2;
        (left + self.x * CELL_PIXELS, top + (FIELD_CELLS * CELL_PIXELS - (self.y + 1) * CELL_PIXELS))
    }
}

} // verus!
