//! Panel renderer: composes one panel's state into draw operations.
//!
//! Each panel moves through two passes.  `build_food_item` (and
//! `draw_sensor_data` for sensor tiles) paints the static chrome: border,
//! icon, labels, empty field boxes and the buy button; it paints none of the
//! dynamic text.  `update_field` (and `update_sensor_data`) paints the
//! dynamic values, and always re-draws a field's background box before its
//! text so that no glyph of an earlier, longer value survives.  An update
//! never re-draws the border, the icon or the button; a state change that
//! affects those needs a full build.

use vstd::prelude::*;
use crate::geometry::{
    spec_food_amount_field, spec_food_amount_label, spec_food_border, spec_food_button,
    spec_food_price_field, spec_food_price_label, spec_sensor_field, food_regions,
    sensor_regions,
};
use crate::icon::{
    bmp_parses, probe_bmp, select_food_icon, select_sensor_icon, spec_food_icon,
    spec_sensor_icon, IconId, IconTable,
};
use crate::ops::{ops_view, Diagnostic, DrawOp, OpView, RenderOutput};
use crate::panel::{FoodItem, SensorData};
use crate::style::{
    panel_style, spec_panel_style, COLOR_ALICE_BLUE, COLOR_BLACK,
};
use crate::text::{
    dec_digits, format_count, format_price, format_tenths, price_text, tenths_text,
    FIELD_CAPACITY,
};

verus! {

// --- the fixed texts -------------------------------------------------------

/// The static caption of the amount field.
pub open spec fn amount_label_text() -> Seq<u8> {
    seq![65u8, 109u8, 111u8, 117u8, 110u8, 116u8]
}

/// The static caption of the price field.
pub open spec fn price_label_text() -> Seq<u8> {
    seq![80u8, 114u8, 105u8, 99u8, 101u8]
}

/// The buy button's caption.
pub open spec fn buy_label_text() -> Seq<u8> {
    seq![66u8, 85u8, 89u8]
}

/// The buy button's fixed per-click quantity caption.
pub open spec fn buy_qty_text() -> Seq<u8> {
    seq![49u8]
}

/// What a field shows when its value's text would not fit the buffer.
pub open spec fn overflow_marker() -> Seq<u8> {
    seq![45u8, 45u8, 45u8]
}

/// The text shown in the amount field: the count's digits, or the overflow
/// marker when they would not fit.
pub open spec fn count_field_text(n: u64) -> Seq<u8> {
    if dec_digits(n as nat).len() <= FIELD_CAPACITY {
        dec_digits(n as nat)
    } else {
        overflow_marker()
    }
}

/// The text shown in the price field: the currency text, or the overflow
/// marker when it would not fit.
pub open spec fn price_field_text(cents: u64) -> Seq<u8> {
    if price_text(cents as nat).len() <= FIELD_CAPACITY {
        price_text(cents as nat)
    } else {
        overflow_marker()
    }
}

/// The text shown in a sensor's value field: the measurement text, or the
/// overflow marker when it would not fit.
pub open spec fn tenths_field_text(tenths: u64) -> Seq<u8> {
    if tenths_text(tenths as nat).len() <= FIELD_CAPACITY {
        tenths_text(tenths as nat)
    } else {
        overflow_marker()
    }
}

// --- the operations of a food tile ----------------------------------------

/// The border frame, coloured by the highlight palette.
pub open spec fn border_op(item: FoodItem) -> OpView {
    OpView::RoundedRect {
        rect: spec_food_border(item.origin),
        corner: 10,
        stroke_width: 5,
        stroke_color: spec_panel_style(item.highlighted, item.purchased).border_stroke,
        fill_color: spec_panel_style(item.highlighted, item.purchased).border_fill,
    }
}

/// The icon blit of a food tile.
pub open spec fn food_icon_op(item: FoodItem) -> OpView {
    OpView::Image {
        icon: spec_food_icon(item.kind, item.highlighted),
        x: (item.origin.x + 10) as i32,
        y: (item.origin.y + 10) as i32,
    }
}

/// The amount field's caption.
pub open spec fn amount_label_op(item: FoodItem) -> OpView {
    OpView::Text {
        text: amount_label_text(),
        x: (item.origin.x + 70) as i32,
        y: (item.origin.y + 18) as i32,
        color: COLOR_BLACK,
        bounds: spec_food_amount_label(item.origin),
    }
}

/// The price field's caption.
pub open spec fn price_label_op(item: FoodItem) -> OpView {
    OpView::Text {
        text: price_label_text(),
        x: (item.origin.x + 155) as i32,
        y: (item.origin.y + 18) as i32,
        color: COLOR_BLACK,
        bounds: spec_food_price_label(item.origin),
    }
}

/// The amount field's background box.
pub open spec fn amount_box_op(item: FoodItem) -> OpView {
    OpView::RoundedRect {
        rect: spec_food_amount_field(item.origin),
        corner: 5,
        stroke_width: 3,
        stroke_color: COLOR_BLACK,
        fill_color: COLOR_ALICE_BLUE,
    }
}

/// The price field's background box.
pub open spec fn price_box_op(item: FoodItem) -> OpView {
    OpView::RoundedRect {
        rect: spec_food_price_field(item.origin),
        corner: 5,
        stroke_width: 3,
        stroke_color: COLOR_BLACK,
        fill_color: COLOR_ALICE_BLUE,
    }
}

/// The buy button's box, coloured by the purchase state.
pub open spec fn button_box_op(item: FoodItem) -> OpView {
    OpView::RoundedRect {
        rect: spec_food_button(item.origin),
        corner: 5,
        stroke_width: 3,
        stroke_color: COLOR_BLACK,
        fill_color: spec_panel_style(item.highlighted, item.purchased).button_fill,
    }
}

/// The buy button's caption.
pub open spec fn buy_label_op(item: FoodItem) -> OpView {
    OpView::Text {
        text: buy_label_text(),
        x: (item.origin.x + 242) as i32,
        y: (item.origin.y + 30) as i32,
        color: COLOR_BLACK,
        bounds: spec_food_button(item.origin),
    }
}

/// The buy button's quantity caption.
pub open spec fn buy_qty_op(item: FoodItem) -> OpView {
    OpView::Text {
        text: buy_qty_text(),
        x: (item.origin.x + 255) as i32,
        y: (item.origin.y + 48) as i32,
        color: COLOR_BLACK,
        bounds: spec_food_button(item.origin),
    }
}

/// The amount field's dynamic text.
pub open spec fn amount_value_op(item: FoodItem) -> OpView {
    OpView::Text {
        text: count_field_text(item.amount),
        x: (item.origin.x + 97) as i32,
        y: (item.origin.y + 45) as i32,
        color: COLOR_BLACK,
        bounds: spec_food_amount_field(item.origin),
    }
}

/// The price field's dynamic text.
pub open spec fn price_value_op(item: FoodItem) -> OpView {
    OpView::Text {
        text: price_field_text(item.price_cents),
        x: (item.origin.x + 155) as i32,
        y: (item.origin.y + 45) as i32,
        color: COLOR_BLACK,
        bounds: spec_food_price_field(item.origin),
    }
}

/// The icon operations an asset lookup yields: the blit when the bytes are
/// present and parse, nothing when the asset is absent or malformed.
pub open spec fn food_icon_ops(item: FoodItem, bytes: Option<Seq<u8>>) -> Seq<OpView> {
    match bytes {
        Some(b) => if bmp_parses(b) {
            seq![food_icon_op(item)]
        } else {
            Seq::empty()
        },
        None => Seq::empty(),
    }
}

/// The diagnostics an asset lookup yields: a decode failure exactly when the
/// bytes are present and do not parse.
pub open spec fn icon_diags(id: IconId, bytes: Option<Seq<u8>>) -> Seq<Diagnostic> {
    match bytes {
        Some(b) => if bmp_parses(b) {
            Seq::empty()
        } else {
            seq![Diagnostic::AssetDecodeFailure { icon: id }]
        },
        None => Seq::empty(),
    }
}

/// Every operation of a full food-tile build, in draw order: border, icon,
/// captions, field boxes, button.  No dynamic text.
pub open spec fn build_food_ops(item: FoodItem, bytes: Option<Seq<u8>>) -> Seq<OpView> {
    seq![border_op(item)] + food_icon_ops(item, bytes)
        + seq![
            amount_label_op(item),
            price_label_op(item),
            amount_box_op(item),
            price_box_op(item),
            button_box_op(item),
            buy_label_op(item),
            buy_qty_op(item),
        ]
}

/// Every operation of a food-tile field update, in draw order: each field's
/// background box strictly before any dynamic text.
pub open spec fn update_food_ops(item: FoodItem) -> Seq<OpView> {
    seq![
        amount_box_op(item),
        price_box_op(item),
        amount_value_op(item),
        price_value_op(item),
    ]
}

// --- the operations of a sensor tile ---------------------------------------

/// The icon blit of a sensor tile.
pub open spec fn sensor_icon_op(data: SensorData) -> OpView {
    OpView::Image {
        icon: spec_sensor_icon(data.sensor_type),
        x: (data.origin.x + 3) as i32,
        y: data.origin.y,
    }
}

/// The value field's background box.
pub open spec fn sensor_box_op(data: SensorData) -> OpView {
    OpView::RoundedRect {
        rect: spec_sensor_field(data.origin),
        corner: 10,
        stroke_width: 5,
        stroke_color: COLOR_BLACK,
        fill_color: COLOR_ALICE_BLUE,
    }
}

/// The value field's dynamic text.
pub open spec fn sensor_value_op(data: SensorData) -> OpView {
    OpView::Text {
        text: tenths_field_text(data.value_tenths),
        x: (data.origin.x + 15) as i32,
        y: (data.origin.y + 93) as i32,
        color: COLOR_BLACK,
        bounds: spec_sensor_field(data.origin),
    }
}

/// The icon operations of a sensor tile, as for food tiles.
pub open spec fn sensor_icon_ops(data: SensorData, bytes: Option<Seq<u8>>) -> Seq<OpView> {
    match bytes {
        Some(b) => if bmp_parses(b) {
            seq![sensor_icon_op(data)]
        } else {
            Seq::empty()
        },
        None => Seq::empty(),
    }
}

/// Every operation of a full sensor-tile build: icon, then the empty value
/// field box.  No dynamic text.
pub open spec fn build_sensor_ops(data: SensorData, bytes: Option<Seq<u8>>) -> Seq<OpView> {
    sensor_icon_ops(data, bytes) + seq![sensor_box_op(data)]
}

/// Every operation of a sensor-tile value update: the background box
/// strictly before the new text.
pub open spec fn update_sensor_ops(data: SensorData) -> Seq<OpView> {
    seq![sensor_box_op(data), sensor_value_op(data)]
}

// --- executable helpers ----------------------------------------------------

fn marker_vec() -> (v: Vec<u8>)
    ensures
        v@ == overflow_marker(),
{
    let mut v: Vec<u8> = Vec::new();
    v.push(45);
    v.push(45);
    v.push(45);
    assert(v@ =~= overflow_marker());
    v
}

fn count_text_vec(n: u64) -> (v: Vec<u8>)
    ensures
        v@ == count_field_text(n),
{
    match format_count(n) {
        Ok(t) => t,
        Err(_) => marker_vec(),
    }
}

fn price_text_vec(cents: u64) -> (v: Vec<u8>)
    ensures
        v@ == price_field_text(cents),
{
    match format_price(cents) {
        Ok(t) => t,
        Err(_) => marker_vec(),
    }
}

fn tenths_text_vec(tenths: u64) -> (v: Vec<u8>)
    ensures
        v@ == tenths_field_text(tenths),
{
    match format_tenths(tenths) {
        Ok(t) => t,
        Err(_) => marker_vec(),
    }
}

fn amount_label_vec() -> (v: Vec<u8>)
    ensures
        v@ == amount_label_text(),
{
    let mut v: Vec<u8> = Vec::new();
    v.push(65);
    v.push(109);
    v.push(111);
    v.push(117);
    v.push(110);
    v.push(116);
    assert(v@ =~= amount_label_text());
    v
}

fn price_label_vec() -> (v: Vec<u8>)
    ensures
        v@ == price_label_text(),
{
    let mut v: Vec<u8> = Vec::new();
    v.push(80);
    v.push(114);
    v.push(105);
    v.push(99);
    v.push(101);
    assert(v@ =~= price_label_text());
    v
}

fn buy_label_vec() -> (v: Vec<u8>)
    ensures
        v@ == buy_label_text(),
{
    let mut v: Vec<u8> = Vec::new();
    v.push(66);
    v.push(85);
    v.push(89);
    assert(v@ =~= buy_label_text());
    v
}

fn buy_qty_vec() -> (v: Vec<u8>)
    ensures
        v@ == buy_qty_text(),
{
    let mut v: Vec<u8> = Vec::new();
    v.push(49);
    assert(v@ =~= buy_qty_text());
    v
}

// --- the render passes -----------------------------------------------------

/// Full build of one food tile.  Emits exactly the operations of
/// `build_food_ops`, in order, and a decode-failure diagnostic exactly when
/// the selected icon's bytes are present but malformed.
pub fn build_food_item(item: &FoodItem, icons: &IconTable) -> (out: RenderOutput)
    requires
        item.wf(),
    ensures
        ops_view(out.ops@) == build_food_ops(
            *item,
            icons.spec_bytes(spec_food_icon(item.kind, item.highlighted)),
        ),
        out.diagnostics@ == icon_diags(
            spec_food_icon(item.kind, item.highlighted),
            icons.spec_bytes(spec_food_icon(item.kind, item.highlighted)),
        ),
{
    let style = panel_style(item.highlighted, item.purchased);
    let regions = food_regions(item.origin);
    let mut ops: Vec<DrawOp> = Vec::new();
    let mut diagnostics: Vec<Diagnostic> = Vec::new();

    ops.push(DrawOp::RoundedRect {
        rect: regions.border,
        corner: 10,
        stroke_width: 5,
        stroke_color: style.border_stroke,
        fill_color: style.border_fill,
    });

    let id = select_food_icon(item.kind, item.highlighted);
    match icons.bytes_for(id) {
        Some(bytes) => {
            if probe_bmp(bytes.as_slice()) {
                ops.push(DrawOp::Image { icon: id, x: item.origin.x + 10, y: item.origin.y + 10 });
            } else {
                diagnostics.push(Diagnostic::AssetDecodeFailure { icon: id });
            }
        },
        None => {},
    }

    ops.push(DrawOp::Text {
        text: amount_label_vec(),
        x: item.origin.x + 70,
        y: item.origin.y + 18,
        color: COLOR_BLACK,
        bounds: regions.amount_label,
    });
    ops.push(DrawOp::Text {
        text: price_label_vec(),
        x: item.origin.x + 155,
        y: item.origin.y + 18,
        color: COLOR_BLACK,
        bounds: regions.price_label,
    });
    ops.push(DrawOp::RoundedRect {
        rect: regions.amount_field,
        corner: 5,
        stroke_width: 3,
        stroke_color: COLOR_BLACK,
        fill_color: COLOR_ALICE_BLUE,
    });
    ops.push(DrawOp::RoundedRect {
        rect: regions.price_field,
        corner: 5,
        stroke_width: 3,
        stroke_color: COLOR_BLACK,
        fill_color: COLOR_ALICE_BLUE,
    });
    ops.push(DrawOp::RoundedRect {
        rect: regions.button,
        corner: 5,
        stroke_width: 3,
        stroke_color: COLOR_BLACK,
        fill_color: style.button_fill,
    });
    ops.push(DrawOp::Text {
        text: buy_label_vec(),
        x: item.origin.x + 242,
        y: item.origin.y + 30,
        color: COLOR_BLACK,
        bounds: regions.button,
    });
    ops.push(DrawOp::Text {
        text: buy_qty_vec(),
        x: item.origin.x + 255,
        y: item.origin.y + 48,
        color: COLOR_BLACK,
        bounds: regions.button,
    });

    let out = RenderOutput { ops, diagnostics };
    proof {
        let bytes = icons.spec_bytes(spec_food_icon(item.kind, item.highlighted));
        assert(ops_view(out.ops@) =~~= build_food_ops(*item, bytes));
        assert(out.diagnostics@ =~= icon_diags(
            spec_food_icon(item.kind, item.highlighted),
            bytes,
        ));
    }
    out
}

/// Field-only update of one food tile.  Emits exactly the operations of
/// `update_food_ops`: each field's background box first, then its new text.
/// Never touches the border, icon or button.
pub fn update_field(item: &FoodItem) -> (ops: Vec<DrawOp>)
    requires
        item.wf(),
    ensures
        ops_view(ops@) == update_food_ops(*item),
{
    let regions = food_regions(item.origin);
    let mut ops: Vec<DrawOp> = Vec::new();

    ops.push(DrawOp::RoundedRect {
        rect: regions.amount_field,
        corner: 5,
        stroke_width: 3,
        stroke_color: COLOR_BLACK,
        fill_color: COLOR_ALICE_BLUE,
    });
    ops.push(DrawOp::RoundedRect {
        rect: regions.price_field,
        corner: 5,
        stroke_width: 3,
        stroke_color: COLOR_BLACK,
        fill_color: COLOR_ALICE_BLUE,
    });
    ops.push(DrawOp::Text {
        text: count_text_vec(item.amount),
        x: item.origin.x + 97,
        y: item.origin.y + 45,
        color: COLOR_BLACK,
        bounds: regions.amount_field,
    });
    ops.push(DrawOp::Text {
        text: price_text_vec(item.price_cents),
        x: item.origin.x + 155,
        y: item.origin.y + 45,
        color: COLOR_BLACK,
        bounds: regions.price_field,
    });

    assert(ops_view(ops@) =~~= update_food_ops(*item));
    ops
}

/// Full build of one sensor tile: icon, then the empty value field box.
pub fn draw_sensor_data(data: &SensorData, icons: &IconTable) -> (out: RenderOutput)
    requires
        data.wf(),
    ensures
        ops_view(out.ops@) == build_sensor_ops(
            *data,
            icons.spec_bytes(spec_sensor_icon(data.sensor_type)),
        ),
        out.diagnostics@ == icon_diags(
            spec_sensor_icon(data.sensor_type),
            icons.spec_bytes(spec_sensor_icon(data.sensor_type)),
        ),
{
    let regions = sensor_regions(data.origin);
    let mut ops: Vec<DrawOp> = Vec::new();
    let mut diagnostics: Vec<Diagnostic> = Vec::new();

    let id = select_sensor_icon(data.sensor_type);
    match icons.bytes_for(id) {
        Some(bytes) => {
            if probe_bmp(bytes.as_slice()) {
                ops.push(DrawOp::Image { icon: id, x: data.origin.x + 3, y: data.origin.y });
            } else {
                diagnostics.push(Diagnostic::AssetDecodeFailure { icon: id });
            }
        },
        None => {},
    }

    ops.push(DrawOp::RoundedRect {
        rect: regions.field,
        corner: 10,
        stroke_width: 5,
        stroke_color: COLOR_BLACK,
        fill_color: COLOR_ALICE_BLUE,
    });

    let out = RenderOutput { ops, diagnostics };
    proof {
        let bytes = icons.spec_bytes(spec_sensor_icon(data.sensor_type));
        assert(ops_view(out.ops@) =~~= build_sensor_ops(*data, bytes));
        assert(out.diagnostics@ =~= icon_diags(spec_sensor_icon(data.sensor_type), bytes));
    }
    out
}

/// Value-only update of one sensor tile: the background box, then the new
/// measurement text.  Never touches the icon.
pub fn update_sensor_data(data: &SensorData) -> (ops: Vec<DrawOp>)
    requires
        data.wf(),
    ensures
        ops_view(ops@) == update_sensor_ops(*data),
{
    let regions = sensor_regions(data.origin);
    let mut ops: Vec<DrawOp> = Vec::new();

    ops.push(DrawOp::RoundedRect {
        rect: regions.field,
        corner: 10,
        stroke_width: 5,
        stroke_color: COLOR_BLACK,
        fill_color: COLOR_ALICE_BLUE,
    });
    ops.push(DrawOp::Text {
        text: tenths_text_vec(data.value_tenths),
        x: data.origin.x + 15,
        y: data.origin.y + 93,
        color: COLOR_BLACK,
        bounds: regions.field,
    });

    assert(ops_view(ops@) =~~= update_sensor_ops(*data));
    ops
}

} // verus!
