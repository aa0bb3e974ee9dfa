//! Geometry table: the fixed layout of every panel kind.
//!
//! All regions are derived from a panel's origin (its top-left anchor) plus
//! per-kind constant offsets.  The table guarantees, by the lemmas at the end
//! of this module, that the content regions of one panel never overlap and
//! all lie inside the panel's border frame.

use vstd::prelude::*;

verus! {

/// A point in surface coordinates.
#[derive(Clone, Copy, PartialEq, Eq, Structural, Debug)]
pub struct Point {
    pub x: i32,
    pub y: i32,
}

/// An axis-aligned rectangle: top-left corner plus width and height.
#[derive(Clone, Copy, PartialEq, Eq, Structural, Debug)]
pub struct Rect {
    pub x: i32,
    pub y: i32,
    pub w: u32,
    pub h: u32,
}

/// A panel origin the renderer accepts: far enough from the coordinate
/// limits that every derived region stays in range.
pub open spec fn origin_in_range(p: Point) -> bool {
    0 <= p.x <= 100000 && 0 <= p.y <= 100000
}

/// Whether the pixel at `(px, py)` lies inside `r`.
pub open spec fn rect_contains(r: Rect, px: int, py: int) -> bool {
    r.x <= px < r.x + r.w && r.y <= py < r.y + r.h
}

/// Whether the pixel lies inside `r` grown by a margin of `m` on every side.
pub open spec fn rect_contains_inflated(r: Rect, m: int, px: int, py: int) -> bool {
    r.x - m <= px < r.x + r.w + m && r.y - m <= py < r.y + r.h + m
}

/// Two rectangles share no pixel.
pub open spec fn rects_disjoint(a: Rect, b: Rect) -> bool {
    a.x + a.w <= b.x || b.x + b.w <= a.x || a.y + a.h <= b.y || b.y + b.h <= a.y
}

/// Every pixel of `inner` lies inside `outer`.
pub open spec fn rect_in_rect(inner: Rect, outer: Rect) -> bool {
    outer.x <= inner.x && inner.x + inner.w <= outer.x + outer.w
        && outer.y <= inner.y && inner.y + inner.h <= outer.y + outer.h
}

/// Whether the pixel lies in the part of `r` that a rounded rectangle with
/// corner radius `corner` is sure to cover: the cross-shaped core that leaves
/// out the four `corner`-by-`corner` corner squares.
pub open spec fn rounded_core_contains(r: Rect, corner: int, px: int, py: int) -> bool {
    rect_contains(r, px, py)
        && (r.x + corner <= px < r.x + r.w - corner || r.y + corner <= py < r.y + r.h - corner)
}

/// What disjointness means pixel by pixel: two disjoint rectangles share no
/// pixel position.
pub proof fn lemma_disjoint_no_common_pixel(a: Rect, b: Rect, px: int, py: int)
    requires
        rects_disjoint(a, b),
    ensures
        !(rect_contains(a, px, py) && rect_contains(b, px, py)),
{
}

/// Runtime check matching `rects_disjoint`, for callers that assemble their
/// own panel layouts.
pub fn rects_overlap(a: &Rect, b: &Rect) -> (r: bool)
    ensures
        r == !rects_disjoint(*a, *b),
{
    let ax2: i64 = a.x as i64 + a.w as i64;
    let bx2: i64 = b.x as i64 + b.w as i64;
    let ay2: i64 = a.y as i64 + a.h as i64;
    let by2: i64 = b.y as i64 + b.h as i64;
    !(ax2 <= b.x as i64 || bx2 <= a.x as i64 || ay2 <= b.y as i64 || by2 <= a.y as i64)
}

// --- food panel layout -----------------------------------------------------
//
// Offsets relative to the panel origin:
//   border        (0, 0)    300 x 65, corner 10, stroke 5
//   icon slot     (10, 10)   60 x 45
//   amount label  (70, 5)    58 x 18, baseline anchor (70, 18)
//   price label   (155, 5)   50 x 18, baseline anchor (165, 18)
//   amount field  (80, 25)   50 x 30, corner 5, stroke 3
//   price field   (150, 25)  70 x 30, corner 5, stroke 3
//   button        (230, 10)  60 x 45, corner 5, stroke 3

pub open spec fn spec_food_border(o: Point) -> Rect {
    Rect { x: o.x, y: o.y, w: 300, h: 65 }
}

pub open spec fn spec_food_icon_slot(o: Point) -> Rect {
    Rect { x: (o.x + 10) as i32, y: (o.y + 10) as i32, w: 60, h: 45 }
}

pub open spec fn spec_food_amount_label(o: Point) -> Rect {
    Rect { x: (o.x + 70) as i32, y: (o.y + 5) as i32, w: 58, h: 18 }
}

pub open spec fn spec_food_price_label(o: Point) -> Rect {
    Rect { x: (o.x + 155) as i32, y: (o.y + 5) as i32, w: 50, h: 18 }
}

pub open spec fn spec_food_amount_field(o: Point) -> Rect {
    Rect { x: (o.x + 80) as i32, y: (o.y + 25) as i32, w: 50, h: 30 }
}

pub open spec fn spec_food_price_field(o: Point) -> Rect {
    Rect { x: (o.x + 150) as i32, y: (o.y + 25) as i32, w: 70, h: 30 }
}

pub open spec fn spec_food_button(o: Point) -> Rect {
    Rect { x: (o.x + 230) as i32, y: (o.y + 10) as i32, w: 60, h: 45 }
}

/// The interior of the food border frame: the border rectangle inset by the
/// border stroke width.
pub open spec fn spec_food_interior(o: Point) -> Rect {
    Rect { x: (o.x + 5) as i32, y: (o.y + 5) as i32, w: 290, h: 55 }
}

/// The fixed layout regions of one food panel.
#[derive(Clone, Copy, PartialEq, Eq, Structural, Debug)]
pub struct FoodRegions {
    pub border: Rect,
    pub icon: Rect,
    pub amount_label: Rect,
    pub price_label: Rect,
    pub amount_field: Rect,
    pub price_field: Rect,
    pub button: Rect,
}

/// Geometry table lookup for a food panel anchored at `o`.
pub fn food_regions(o: Point) -> (r: FoodRegions)
    requires
        origin_in_range(o),
    ensures
        r.border == spec_food_border(o),
        r.icon == spec_food_icon_slot(o),
        r.amount_label == spec_food_amount_label(o),
        r.price_label == spec_food_price_label(o),
        r.amount_field == spec_food_amount_field(o),
        r.price_field == spec_food_price_field(o),
        r.button == spec_food_button(o),
{
    FoodRegions {
        border: Rect { x: o.x, y: o.y, w: 300, h: 65 },
        icon: Rect { x: o.x + 10, y: o.y + 10, w: 60, h: 45 },
        amount_label: Rect { x: o.x + 70, y: o.y + 5, w: 58, h: 18 },
        price_label: Rect { x: o.x + 155, y: o.y + 5, w: 50, h: 18 },
        amount_field: Rect { x: o.x + 80, y: o.y + 25, w: 50, h: 30 },
        price_field: Rect { x: o.x + 150, y: o.y + 25, w: 70, h: 30 },
        button: Rect { x: o.x + 230, y: o.y + 10, w: 60, h: 45 },
    }
}

// --- sensor panel layout ---------------------------------------------------
//
// Offsets relative to the panel origin:
//   icon slot    (3, 0)    64 x 64
//   value field  (0, 70)   70 x 35, corner 10, stroke 5, text anchor (15, 93)

pub open spec fn spec_sensor_icon_slot(o: Point) -> Rect {
    Rect { x: (o.x + 3) as i32, y: o.y, w: 64, h: 64 }
}

pub open spec fn spec_sensor_field(o: Point) -> Rect {
    Rect { x: o.x, y: (o.y + 70) as i32, w: 70, h: 35 }
}

/// The fixed layout regions of one sensor panel.
#[derive(Clone, Copy, PartialEq, Eq, Structural, Debug)]
pub struct SensorRegions {
    pub icon: Rect,
    pub field: Rect,
}

/// Geometry table lookup for a sensor panel anchored at `o`.
pub fn sensor_regions(o: Point) -> (r: SensorRegions)
    requires
        origin_in_range(o),
    ensures
        r.icon == spec_sensor_icon_slot(o),
        r.field == spec_sensor_field(o),
{
    SensorRegions {
        icon: Rect { x: o.x + 3, y: o.y, w: 64, h: 64 },
        field: Rect { x: o.x, y: o.y + 70, w: 70, h: 35 },
    }
}

/// The content regions of a food panel never overlap, and all of them lie
/// inside the border frame's interior.  Violating this would let one draw
/// scribble over another, so it is established once here for every origin.
pub proof fn lemma_food_regions_disjoint(o: Point)
    requires
        origin_in_range(o),
    ensures
        rects_disjoint(spec_food_icon_slot(o), spec_food_amount_label(o)),
        rects_disjoint(spec_food_icon_slot(o), spec_food_price_label(o)),
        rects_disjoint(spec_food_icon_slot(o), spec_food_amount_field(o)),
        rects_disjoint(spec_food_icon_slot(o), spec_food_price_field(o)),
        rects_disjoint(spec_food_icon_slot(o), spec_food_button(o)),
        rects_disjoint(spec_food_amount_label(o), spec_food_price_label(o)),
        rects_disjoint(spec_food_amount_label(o), spec_food_amount_field(o)),
        rects_disjoint(spec_food_amount_label(o), spec_food_price_field(o)),
        rects_disjoint(spec_food_amount_label(o), spec_food_button(o)),
        rects_disjoint(spec_food_price_label(o), spec_food_amount_field(o)),
        rects_disjoint(spec_food_price_label(o), spec_food_price_field(o)),
        rects_disjoint(spec_food_price_label(o), spec_food_button(o)),
        rects_disjoint(spec_food_amount_field(o), spec_food_price_field(o)),
        rects_disjoint(spec_food_amount_field(o), spec_food_button(o)),
        rects_disjoint(spec_food_price_field(o), spec_food_button(o)),
        rect_in_rect(spec_food_icon_slot(o), spec_food_interior(o)),
        rect_in_rect(spec_food_amount_label(o), spec_food_interior(o)),
        rect_in_rect(spec_food_price_label(o), spec_food_interior(o)),
        rect_in_rect(spec_food_amount_field(o), spec_food_interior(o)),
        rect_in_rect(spec_food_price_field(o), spec_food_interior(o)),
        rect_in_rect(spec_food_button(o), spec_food_interior(o)),
{
}

/// The content regions of a sensor panel never overlap.
pub proof fn lemma_sensor_regions_disjoint(o: Point)
    requires
        origin_in_range(o),
    ensures
        rects_disjoint(spec_sensor_icon_slot(o), spec_sensor_field(o)),
{
}

/// The whole extent a food panel's chrome may touch: the border frame grown
/// by half its stroke width.  (An icon blit's extent is the decoded
/// bitmap's and is not bounded by the table.)
pub open spec fn spec_food_frame_extent(o: Point) -> Rect {
    Rect { x: (o.x - 3) as i32, y: (o.y - 3) as i32, w: 306, h: 71 }
}

/// The whole extent a sensor panel's chrome may touch: its icon slot and
/// its value field box grown by half the box's stroke width.
pub open spec fn spec_sensor_frame_extent(o: Point) -> Rect {
    Rect { x: (o.x - 3) as i32, y: o.y, w: 76, h: 108 }
}

/// Two food panels stacked at least one frame extent apart never overlap:
/// the cross-panel invariant of the slot layout, parameterized per slot.
pub proof fn lemma_food_slots_disjoint(o1: Point, o2: Point)
    requires
        origin_in_range(o1),
        origin_in_range(o2),
        o1.y + 71 <= o2.y || o2.y + 71 <= o1.y || o1.x + 306 <= o2.x || o2.x + 306 <= o1.x,
    ensures
        rects_disjoint(spec_food_frame_extent(o1), spec_food_frame_extent(o2)),
{
}

/// Two sensor panels placed at least one frame extent apart never overlap.
pub proof fn lemma_sensor_slots_disjoint(o1: Point, o2: Point)
    requires
        origin_in_range(o1),
        origin_in_range(o2),
        o1.x + 76 <= o2.x || o2.x + 76 <= o1.x || o1.y + 108 <= o2.y || o2.y + 108 <= o1.y,
    ensures
        rects_disjoint(spec_sensor_frame_extent(o1), spec_sensor_frame_extent(o2)),
{
}

/// A sensor panel's content regions lie inside its frame extent.
pub proof fn lemma_sensor_regions_in_extent(o: Point)
    requires
        origin_in_range(o),
    ensures
        rect_in_rect(spec_sensor_icon_slot(o), spec_sensor_frame_extent(o)),
        rect_in_rect(spec_sensor_field(o), spec_sensor_frame_extent(o)),
{
}

/// A food panel's border frame, and with it every content region, lies
/// inside its frame extent.
pub proof fn lemma_food_regions_in_extent(o: Point)
    requires
        origin_in_range(o),
    ensures
        rect_in_rect(spec_food_border(o), spec_food_frame_extent(o)),
        rect_in_rect(spec_food_interior(o), spec_food_frame_extent(o)),
{
}

} // verus!
