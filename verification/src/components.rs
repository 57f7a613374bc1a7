//! The data fragments an entity can carry, and the two rules by which a
//! position moves: drifting left with wrap-around, and shifting by a
//! delta with clamping.

use vstd::prelude::*;

verus! {

/// The storage that holds each kind of fragment inside the entity store.
/// Nothing here looks inside it.
#[verifier::external_type_specification]
#[verifier::external_body]
#[verifier::reject_recursive_types(T)]
pub struct ExDenseVecStorage<T>(specs::DenseVecStorage<T>);

/// Rightmost column of the grid.
pub const MAX_X: i32 = 79;

/// Bottom row of the grid.
pub const MAX_Y: i32 = 49;

/// A grid cell.
#[derive(Clone, Copy, Debug, PartialEq, Eq, Structural)]
pub struct Position {
    pub x: i32,
    pub y: i32,
}

/// An 8-bit-per-channel colour.
#[derive(Clone, Copy, Debug, PartialEq, Eq, Structural)]
pub struct Color {
    pub r: u8,
    pub g: u8,
    pub b: u8,
}

/// How an entity is drawn: a glyph of the console font and two colours.
#[derive(Clone, Copy, Debug, PartialEq, Eq, Structural)]
pub struct Renderable {
    pub glyph: u16,
    pub fg: Color,
    pub bg: Color,
}

/// Marks the entity that the keyboard controls.
#[derive(Clone, Copy, Debug, PartialEq, Eq, Structural)]
pub struct Player {}

/// Marks an entity that drifts to the left on its own.
#[derive(Clone, Copy, Debug, PartialEq, Eq, Structural)]
pub struct LeftMover {}

/// The fragments to attach to a new entity.
#[derive(Clone, Copy, Debug, PartialEq, Eq, Structural)]
pub struct Bundle {
    pub position: Option<Position>,
    pub renderable: Option<Renderable>,
    pub player: bool,
    pub left_mover: bool,
}

impl specs::Component for Position {
    type Storage = specs::DenseVecStorage<Position>;
}

impl specs::Component for Renderable {
    type Storage = specs::DenseVecStorage<Renderable>;
}

impl specs::Component for Player {
    type Storage = specs::DenseVecStorage<Player>;
}

impl specs::Component for LeftMover {
    type Storage = specs::DenseVecStorage<LeftMover>;
}

/// `v` held into the range `lo..=hi`.
pub open spec fn clamp(v: int, lo: int, hi: int) -> int {
    if v < lo {
        lo
    } else if v > hi {
        hi
    } else {
        v
    }
}

/// The column one step to the left of `x`, re-entering at the right edge
/// when the step would leave the grid.
pub open spec fn left_of(x: int) -> int {
    if x - 1 < 0 {
        79
    } else {
        x - 1
    }
}

impl Position {
    /// The cell reached by one step to the left; the row stays.
    pub open spec fn spec_step_left(self) -> Position {
        Position { x: left_of(self.x as int) as i32, y: self.y }
    }

    /// The cell reached by adding `(dx, dy)` and holding the result inside
    /// the grid.
    pub open spec fn spec_shifted(self, dx: int, dy: int) -> Position {
        Position { x: clamp(self.x + dx, 0, 79) as i32, y: clamp(self.y + dy, 0, 49) as i32 }
    }

    /// Whether the cell lies inside the grid.
    pub open spec fn on_grid(self) -> bool {
        0 <= self.x <= 79 && 0 <= self.y <= 49
    }

    /// One step to the left, wrapping to the rightmost column.
    pub fn step_left(self) -> (r: Position)
        ensures
            r == self.spec_step_left(),
            self.on_grid() ==> r.on_grid(),
    {
        let x: i32 = if self.x <= 0 {
            MAX_X
        } else {
            self.x - 1
        };
        Position { x, y: self.y }
    }

    /// Shifts by `(dx, dy)`, clamping each coordinate to the grid.
    pub fn shifted(self, dx: i32, dy: i32) -> (r: Position)
        ensures
            r == self.spec_shifted(dx as int, dy as int),
            r.on_grid(),
    {
        let nx: i64 = self.x as i64 + dx as i64;
        let ny: i64 = self.y as i64 + dy as i64;
        let x: i32 = if nx < 0 {
            0
        } else if nx > MAX_X as i64 {
            MAX_X
        } else {
            nx as i32
        };
        let y: i32 = if ny < 0 {
            0
        } else if ny > MAX_Y as i64 {
            MAX_Y
        } else {
            ny as i32
        };
        Position { x, y }
    }
}

} // verus!
