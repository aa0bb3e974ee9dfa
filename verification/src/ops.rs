//! Primitive draw operations.
//!
//! A render pass produces an ordered sequence of these operations; a thin
//! unverified shell executes them against the raster surface in order.  The
//! surface is a passive sink: no operation reads pixels back.  Text carries
//! an explicit bounds rectangle and is clipped to it by the executor, so a
//! text run can never paint outside the region its contracts speak of.

use vstd::prelude::*;
use crate::geometry::{rect_contains, rect_contains_inflated, Rect};
use crate::icon::IconId;

verus! {

/// One primitive draw operation.
#[derive(Clone, PartialEq, Eq, Debug)]
pub enum DrawOp {
    /// A rounded rectangle with equal corners, stroked and filled.
    RoundedRect {
        rect: Rect,
        corner: u32,
        stroke_width: u32,
        stroke_color: u16,
        fill_color: u16,
    },
    /// An icon image blitted with its top-left corner at `(x, y)`.
    Image { icon: IconId, x: i32, y: i32 },
    /// A run of ASCII text with its baseline anchor at `(x, y)`, clipped to
    /// `bounds`.
    Text { text: Vec<u8>, x: i32, y: i32, color: u16, bounds: Rect },
}

/// The mathematical value of one draw operation.
#[verifier::ext_equal]
pub enum OpView {
    RoundedRect {
        rect: Rect,
        corner: u32,
        stroke_width: u32,
        stroke_color: u16,
        fill_color: u16,
    },
    Image { icon: IconId, x: i32, y: i32 },
    Text { text: Seq<u8>, x: i32, y: i32, color: u16, bounds: Rect },
}

impl View for DrawOp {
    type V = OpView;

    open spec fn view(&self) -> OpView {
        match self {
            DrawOp::RoundedRect { rect, corner, stroke_width, stroke_color, fill_color } => {
                OpView::RoundedRect {
                    rect: *rect,
                    corner: *corner,
                    stroke_width: *stroke_width,
                    stroke_color: *stroke_color,
                    fill_color: *fill_color,
                }
            },
            DrawOp::Image { icon, x, y } => OpView::Image { icon: *icon, x: *x, y: *y },
            DrawOp::Text { text, x, y, color, bounds } => {
                OpView::Text { text: text@, x: *x, y: *y, color: *color, bounds: *bounds }
            },
        }
    }
}

/// The sequence of operation values an operation vector denotes.
pub open spec fn ops_view(ops: Seq<DrawOp>) -> Seq<OpView> {
    ops.map(|i: int, op: DrawOp| op@)
}

/// Whether an operation may touch the pixel at `(px, py)`.  A stroked
/// rectangle's stroke is centred on the rectangle's edge, so the operation
/// reaches half a stroke width beyond it; text is clipped to its bounds; an
/// image's extent is the decoded bitmap's and is not bounded here.
pub open spec fn op_touches(op: OpView, px: int, py: int) -> bool {
    match op {
        OpView::RoundedRect { rect, stroke_width, .. } => {
            rect_contains_inflated(rect, ((stroke_width + 1) / 2) as int, px, py)
        },
        OpView::Text { bounds, .. } => rect_contains(bounds, px, py),
        OpView::Image { .. } => true,
    }
}

/// A failure observed during a render pass and reported alongside the
/// operations; no failure aborts the pass.
#[derive(Clone, Copy, PartialEq, Eq, Structural, Debug)]
pub enum Diagnostic {
    /// The icon's bytes were present but did not parse as a BMP image; the
    /// icon draw was skipped.
    AssetDecodeFailure { icon: IconId },
}

/// What one render pass hands the executor: the draw operations in order,
/// and the failures observed while composing them.
#[derive(Clone, PartialEq, Eq, Debug)]
pub struct RenderOutput {
    pub ops: Vec<DrawOp>,
    pub diagnostics: Vec<Diagnostic>,
}

} // verus!
