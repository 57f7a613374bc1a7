//! What a frame asks of the display.

use vstd::prelude::*;
use crate::components::Color;
use crate::components::Position;
use crate::components::Renderable;

verus! {

/// One request to the display.
#[derive(Clone, Copy, Debug, PartialEq, Eq, Structural)]
pub enum FrameOp {
    /// Wipe the whole surface.
    Clear,
    /// Put a glyph with its colours at the cell `(x, y)`.
    Draw { x: i32, y: i32, fg: Color, bg: Color, glyph: u16 },
}

/// The request that draws an entity at its cell.
pub open spec fn spec_draw_op(p: Position, r: Renderable) -> FrameOp {
    FrameOp::Draw { x: p.x, y: p.y, fg: r.fg, bg: r.bg, glyph: r.glyph }
}

/// The requests of one frame: the surface is cleared first, then each
/// listed entity is drawn at its cell, in the order of the list.
pub open spec fn spec_frame_ops(cells: Seq<(u32, Position, Renderable)>) -> Seq<FrameOp> {
    seq![FrameOp::Clear] + Seq::new(cells.len(), |i: int| spec_draw_op(cells[i].1, cells[i].2))
}

/// The request that draws an entity at its cell.
pub fn draw_op(p: Position, r: Renderable) -> (op: FrameOp)
    ensures
        op == spec_draw_op(p, r),
{
    FrameOp::Draw { x: p.x, y: p.y, fg: r.fg, bg: r.bg, glyph: r.glyph }
}

/// The requests of one frame for the listed entities.
pub fn frame_ops(cells: &Vec<(u32, Position, Renderable)>) -> (ops: Vec<FrameOp>)
    ensures
        ops@ == spec_frame_ops(cells@),
{
    let mut ops: Vec<FrameOp> = Vec::new();
    ops.push(FrameOp::Clear);
    let mut i: usize = 0;
    while i < cells.len()
        invariant
            i <= cells@.len(),
            ops@.len() == i + 1,
            ops@[0] == FrameOp::Clear,
            forall|k: int| 0 <= k < i ==> ops@[k + 1] == spec_draw_op(cells@[k].1, cells@[k].2),
        decreases cells@.len() - i,
    {
        let c = cells[i];
        ops.push(draw_op(c.1, c.2));
        i += 1;
    }
    ops
}

} // verus!
