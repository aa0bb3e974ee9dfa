//! An abstract pixel model of the raster surface, and the laws of the
//! incremental-update protocol.
//!
//! The surface executes draw operations in order and never reads pixels
//! back, so its state is determined by the initial pixel contents and the
//! operation sequence painted since.  The rasteriser itself (how a rounded
//! rectangle, glyph run or image maps to pixels) is the external surface's
//! business; here it is an arbitrary function `raster` from an operation and
//! a pixel position to the colour written there, or to none when the
//! operation leaves that pixel alone.  Every law below is proved for every
//! such function, assuming of it only what the draw contract promises: that
//! an operation writes within its extent (`op_touches`) and that a rounded
//! box paints all of its core (`rounded_core_contains`).

use vstd::prelude::*;
use crate::geometry::{
    rect_contains, rounded_core_contains, spec_food_amount_field, spec_food_button,
    spec_food_price_field, spec_sensor_field,
};
use crate::ops::{op_touches, OpView};
use crate::panel::{FoodItem, SensorData};
use crate::render::{
    amount_box_op, price_box_op, sensor_box_op, update_food_ops, update_sensor_ops,
};

verus! {

/// The colour of the pixel at `(x, y)` after painting `ops`, in order, over
/// a surface whose prior contents are `init`.
pub open spec fn pixel_after(
    init: spec_fn(int, int) -> u16,
    raster: spec_fn(OpView, int, int) -> Option<u16>,
    ops: Seq<OpView>,
    x: int,
    y: int,
) -> u16
    decreases ops.len(),
{
    if ops.len() == 0 {
        init(x, y)
    } else {
        match raster(ops.last(), x, y) {
            Some(c) => c,
            None => pixel_after(init, raster, ops.drop_last(), x, y),
        }
    }
}

/// A rasteriser that honours the draw contract: an operation writes only
/// pixels within its extent.
pub open spec fn raster_confined(raster: spec_fn(OpView, int, int) -> Option<u16>) -> bool {
    forall|op: OpView, x: int, y: int|
        #[trigger] raster(op, x, y) is Some ==> op_touches(op, x, y)
}

/// A pixel none of the operations write keeps its prior colour.
pub proof fn lemma_pixel_untouched(
    init: spec_fn(int, int) -> u16,
    raster: spec_fn(OpView, int, int) -> Option<u16>,
    ops: Seq<OpView>,
    x: int,
    y: int,
)
    requires
        forall|i: int| 0 <= i < ops.len() ==> #[trigger] raster(ops[i], x, y) is None,
    ensures
        pixel_after(init, raster, ops, x, y) == init(x, y),
    decreases ops.len(),
{
    if ops.len() > 0 {
        assert(raster(ops[ops.len() - 1], x, y) is None);
        lemma_pixel_untouched(init, raster, ops.drop_last(), x, y);
    }
}

/// A pixel that at least one operation writes gets a colour that does not
/// depend on the surface's prior contents.
pub proof fn lemma_pixel_covered(
    init1: spec_fn(int, int) -> u16,
    init2: spec_fn(int, int) -> u16,
    raster: spec_fn(OpView, int, int) -> Option<u16>,
    ops: Seq<OpView>,
    x: int,
    y: int,
)
    requires
        exists|i: int| 0 <= i < ops.len() && #[trigger] raster(ops[i], x, y) is Some,
    ensures
        pixel_after(init1, raster, ops, x, y) == pixel_after(init2, raster, ops, x, y),
    decreases ops.len(),
{
    let i = choose|i: int| 0 <= i < ops.len() && #[trigger] raster(ops[i], x, y) is Some;
    if raster(ops.last(), x, y) is Some {
    } else {
        assert(i < ops.len() - 1);
        assert(ops.drop_last()[i] == ops[i]);
        lemma_pixel_covered(init1, init2, raster, ops.drop_last(), x, y);
    }
}

/// Painting `a ++ b` is painting `b` over the surface `a` left behind.
pub proof fn lemma_pixel_append(
    init: spec_fn(int, int) -> u16,
    raster: spec_fn(OpView, int, int) -> Option<u16>,
    a: Seq<OpView>,
    b: Seq<OpView>,
    x: int,
    y: int,
)
    ensures
        pixel_after(init, raster, a + b, x, y) == pixel_after(
            |px: int, py: int| pixel_after(init, raster, a, px, py),
            raster,
            b,
            x,
            y,
        ),
    decreases b.len(),
{
    let mid = |px: int, py: int| pixel_after(init, raster, a, px, py);
    if b.len() == 0 {
        assert(a + b =~= a);
        assert(pixel_after(mid, raster, b, x, y) == mid(x, y));
    } else {
        assert((a + b).last() == b.last());
        match raster(b.last(), x, y) {
            Some(_) => {},
            None => {
                assert((a + b).drop_last() =~= a + b.drop_last());
                lemma_pixel_append(init, raster, a, b.drop_last(), x, y);
            },
        }
    }
}

/// Painting the same operation sequence twice in a row leaves every pixel as
/// painting it once does: a replayed render pass is pixel-identical.
pub proof fn lemma_replay_identical(
    init: spec_fn(int, int) -> u16,
    raster: spec_fn(OpView, int, int) -> Option<u16>,
    ops: Seq<OpView>,
    x: int,
    y: int,
)
    ensures
        pixel_after(init, raster, ops + ops, x, y) == pixel_after(init, raster, ops, x, y),
{
    let mid = |px: int, py: int| pixel_after(init, raster, ops, px, py);
    lemma_pixel_append(init, raster, ops, ops, x, y);
    if exists|i: int| 0 <= i < ops.len() && #[trigger] raster(ops[i], x, y) is Some {
        lemma_pixel_covered(mid, init, raster, ops, x, y);
    } else {
        assert(forall|i: int| 0 <= i < ops.len() ==> #[trigger] raster(ops[i], x, y) is None);
        lemma_pixel_untouched(mid, raster, ops, x, y);
        assert(mid(x, y) == pixel_after(init, raster, ops, x, y));
    }
}

/// Updating a food tile's fields twice with the same state is
/// pixel-identical to updating once, whatever the surface held before and
/// whatever the rasteriser's pixels are.
pub proof fn lemma_update_field_idempotent(
    item: FoodItem,
    init: spec_fn(int, int) -> u16,
    raster: spec_fn(OpView, int, int) -> Option<u16>,
    x: int,
    y: int,
)
    ensures
        pixel_after(init, raster, update_food_ops(item) + update_food_ops(item), x, y)
            == pixel_after(init, raster, update_food_ops(item), x, y),
{
    lemma_replay_identical(init, raster, update_food_ops(item), x, y);
}

/// Updating a sensor tile's value twice with the same state is
/// pixel-identical to updating once.
pub proof fn lemma_update_sensor_idempotent(
    data: SensorData,
    init: spec_fn(int, int) -> u16,
    raster: spec_fn(OpView, int, int) -> Option<u16>,
    x: int,
    y: int,
)
    ensures
        pixel_after(init, raster, update_sensor_ops(data) + update_sensor_ops(data), x, y)
            == pixel_after(init, raster, update_sensor_ops(data), x, y),
{
    lemma_replay_identical(init, raster, update_sensor_ops(data), x, y);
}

/// After a food-tile field update, every pixel in the core of the amount
/// field is independent of what the surface held before: no glyph of an
/// earlier, longer value survives there.  Assumes only that the rasteriser
/// paints the field's background box onto all of the box's core (the box
/// minus its four rounded-corner squares).
pub proof fn lemma_update_clears_amount_field(
    item: FoodItem,
    init1: spec_fn(int, int) -> u16,
    init2: spec_fn(int, int) -> u16,
    raster: spec_fn(OpView, int, int) -> Option<u16>,
    x: int,
    y: int,
)
    requires
        rounded_core_contains(spec_food_amount_field(item.origin), 5, x, y),
        forall|px: int, py: int|
            rounded_core_contains(spec_food_amount_field(item.origin), 5, px, py)
                ==> #[trigger] raster(amount_box_op(item), px, py) is Some,
    ensures
        pixel_after(init1, raster, update_food_ops(item), x, y) == pixel_after(
            init2,
            raster,
            update_food_ops(item),
            x,
            y,
        ),
{
    assert(update_food_ops(item)[0] == amount_box_op(item));
    assert(raster(update_food_ops(item)[0], x, y) is Some);
    lemma_pixel_covered(init1, init2, raster, update_food_ops(item), x, y);
}

/// After a food-tile field update, every pixel in the core of the price
/// field is independent of what the surface held before.
pub proof fn lemma_update_clears_price_field(
    item: FoodItem,
    init1: spec_fn(int, int) -> u16,
    init2: spec_fn(int, int) -> u16,
    raster: spec_fn(OpView, int, int) -> Option<u16>,
    x: int,
    y: int,
)
    requires
        rounded_core_contains(spec_food_price_field(item.origin), 5, x, y),
        forall|px: int, py: int|
            rounded_core_contains(spec_food_price_field(item.origin), 5, px, py)
                ==> #[trigger] raster(price_box_op(item), px, py) is Some,
    ensures
        pixel_after(init1, raster, update_food_ops(item), x, y) == pixel_after(
            init2,
            raster,
            update_food_ops(item),
            x,
            y,
        ),
{
    assert(update_food_ops(item)[1] == price_box_op(item));
    assert(raster(update_food_ops(item)[1], x, y) is Some);
    lemma_pixel_covered(init1, init2, raster, update_food_ops(item), x, y);
}

/// After a sensor-tile value update, every pixel in the core of the value
/// field is independent of what the surface held before.
pub proof fn lemma_update_clears_sensor_field(
    data: SensorData,
    init1: spec_fn(int, int) -> u16,
    init2: spec_fn(int, int) -> u16,
    raster: spec_fn(OpView, int, int) -> Option<u16>,
    x: int,
    y: int,
)
    requires
        rounded_core_contains(spec_sensor_field(data.origin), 10, x, y),
        forall|px: int, py: int|
            rounded_core_contains(spec_sensor_field(data.origin), 10, px, py)
                ==> #[trigger] raster(sensor_box_op(data), px, py) is Some,
    ensures
        pixel_after(init1, raster, update_sensor_ops(data), x, y) == pixel_after(
            init2,
            raster,
            update_sensor_ops(data),
            x,
            y,
        ),
{
    assert(update_sensor_ops(data)[0] == sensor_box_op(data));
    assert(raster(update_sensor_ops(data)[0], x, y) is Some);
    lemma_pixel_covered(init1, init2, raster, update_sensor_ops(data), x, y);
}

/// A food-tile field update leaves every pixel of the buy button exactly as
/// it was: changing `purchased` and then calling only the update pass shows
/// no new button colour — that takes a full build.
pub proof fn lemma_update_leaves_button(
    item: FoodItem,
    init: spec_fn(int, int) -> u16,
    raster: spec_fn(OpView, int, int) -> Option<u16>,
    x: int,
    y: int,
)
    requires
        item.wf(),
        rect_contains(spec_food_button(item.origin), x, y),
        raster_confined(raster),
    ensures
        pixel_after(init, raster, update_food_ops(item), x, y) == init(x, y),
{
    let ops = update_food_ops(item);
    assert forall|i: int| 0 <= i < ops.len() implies #[trigger] raster(ops[i], x, y) is None by {
        assert(!op_touches(ops[0], x, y));
        assert(!op_touches(ops[1], x, y));
        assert(!op_touches(ops[2], x, y));
        assert(!op_touches(ops[3], x, y));
        if raster(ops[i], x, y) is Some {
            assert(op_touches(ops[i], x, y));
        }
    }
    lemma_pixel_untouched(init, raster, ops, x, y);
}

} // verus!
