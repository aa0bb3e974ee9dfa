//! Verified rendering core for a fixed set of point-of-sale and telemetry
//! panels.
//!
//! The library turns a snapshot of a panel's state (a purchasable item or a
//! sensor reading) into an ordered sequence of primitive draw operations for
//! a raster surface.  It never talks to a display itself: a thin unverified
//! shell executes the operations against the real surface.

use vstd::prelude::*;

pub mod geometry;
pub mod icon;
pub mod ops;
pub mod panel;
pub mod render;
pub mod style;
pub mod surface;
pub mod text;

use crate::geometry::Rect;
use crate::icon::{spec_food_icon, spec_sensor_icon, IconTable};
use crate::ops::{ops_view, DrawOp, OpView, RenderOutput};
use crate::panel::{FoodItem, SensorData};
use crate::render::{
    build_food_item, build_food_ops, build_sensor_ops, draw_sensor_data, icon_diags,
};
use crate::style::{COLOR_BLACK, COLOR_WHITE};

verus! {

/// The shared background frame behind the three sensor tiles.
pub open spec fn sensor_overlay_op() -> OpView {
    OpView::RoundedRect {
        rect: Rect { x: 19, y: 50, w: 280, h: 150 },
        corner: 10,
        stroke_width: 5,
        stroke_color: COLOR_BLACK,
        fill_color: COLOR_WHITE,
    }
}

/// The icon bytes a table holds for a food tile's current state.
pub open spec fn food_icon_bytes(icons: IconTable, item: FoodItem) -> Option<Seq<u8>> {
    icons.spec_bytes(spec_food_icon(item.kind, item.highlighted))
}

/// The icon bytes a table holds for a sensor tile.
pub open spec fn sensor_icon_bytes(icons: IconTable, data: SensorData) -> Option<Seq<u8>> {
    icons.spec_bytes(spec_sensor_icon(data.sensor_type))
}

/// Builds the full three-tile sensor display: the shared overlay frame, then
/// each tile in the caller-supplied order.  Every tile is rendered whatever
/// happens to its siblings' icons; icon failures only accumulate in the
/// diagnostics.
pub fn build_sensor_ui(
    temperature_data: &SensorData,
    humidity_data: &SensorData,
    pressure_data: &SensorData,
    icons: &IconTable,
) -> (out: RenderOutput)
    requires
        temperature_data.wf(),
        humidity_data.wf(),
        pressure_data.wf(),
    ensures
        ops_view(out.ops@) == seq![sensor_overlay_op()]
            + build_sensor_ops(*temperature_data, sensor_icon_bytes(*icons, *temperature_data))
            + build_sensor_ops(*humidity_data, sensor_icon_bytes(*icons, *humidity_data))
            + build_sensor_ops(*pressure_data, sensor_icon_bytes(*icons, *pressure_data)),
        out.diagnostics@ == icon_diags(
            spec_sensor_icon(temperature_data.sensor_type),
            sensor_icon_bytes(*icons, *temperature_data),
        )
            + icon_diags(
            spec_sensor_icon(humidity_data.sensor_type),
            sensor_icon_bytes(*icons, *humidity_data),
        )
            + icon_diags(
            spec_sensor_icon(pressure_data.sensor_type),
            sensor_icon_bytes(*icons, *pressure_data),
        ),
{
    let mut ops: Vec<DrawOp> = Vec::new();
    let mut diagnostics: Vec<crate::ops::Diagnostic> = Vec::new();
    ops.push(DrawOp::RoundedRect {
        rect: Rect { x: 19, y: 50, w: 280, h: 150 },
        corner: 10,
        stroke_width: 5,
        stroke_color: COLOR_BLACK,
        fill_color: COLOR_WHITE,
    });
    let mut first = draw_sensor_data(temperature_data, icons);
    let mut second = draw_sensor_data(humidity_data, icons);
    let mut third = draw_sensor_data(pressure_data, icons);
    ops.append(&mut first.ops);
    ops.append(&mut second.ops);
    ops.append(&mut third.ops);
    diagnostics.append(&mut first.diagnostics);
    diagnostics.append(&mut second.diagnostics);
    diagnostics.append(&mut third.diagnostics);
    let out = RenderOutput { ops, diagnostics };
    proof {
        assert(ops_view(out.ops@) =~~= seq![sensor_overlay_op()]
            + build_sensor_ops(*temperature_data, sensor_icon_bytes(*icons, *temperature_data))
            + build_sensor_ops(*humidity_data, sensor_icon_bytes(*icons, *humidity_data))
            + build_sensor_ops(*pressure_data, sensor_icon_bytes(*icons, *pressure_data)));
        assert(out.diagnostics@ =~= icon_diags(
            spec_sensor_icon(temperature_data.sensor_type),
            sensor_icon_bytes(*icons, *temperature_data),
        )
            + icon_diags(
            spec_sensor_icon(humidity_data.sensor_type),
            sensor_icon_bytes(*icons, *humidity_data),
        )
            + icon_diags(
            spec_sensor_icon(pressure_data.sensor_type),
            sensor_icon_bytes(*icons, *pressure_data),
        ));
    }
    out
}

/// Builds the full three-tile inventory display, one food tile per slot, in
/// the caller-supplied order.  No tile's rendering depends on another's; a
/// tile's icon failure only accumulates in the diagnostics.
pub fn build_inventory(
    hotdog: &FoodItem,
    sandwich: &FoodItem,
    energy_drink: &FoodItem,
    icons: &IconTable,
) -> (out: RenderOutput)
    requires
        hotdog.wf(),
        sandwich.wf(),
        energy_drink.wf(),
    ensures
        ops_view(out.ops@) == build_food_ops(*hotdog, food_icon_bytes(*icons, *hotdog))
            + build_food_ops(*sandwich, food_icon_bytes(*icons, *sandwich))
            + build_food_ops(*energy_drink, food_icon_bytes(*icons, *energy_drink)),
        out.diagnostics@ == icon_diags(
            spec_food_icon(hotdog.kind, hotdog.highlighted),
            food_icon_bytes(*icons, *hotdog),
        )
            + icon_diags(
            spec_food_icon(sandwich.kind, sandwich.highlighted),
            food_icon_bytes(*icons, *sandwich),
        )
            + icon_diags(
            spec_food_icon(energy_drink.kind, energy_drink.highlighted),
            food_icon_bytes(*icons, *energy_drink),
        ),
{
    let mut first = build_food_item(hotdog, icons);
    let mut second = build_food_item(sandwich, icons);
    let mut third = build_food_item(energy_drink, icons);
    let mut ops: Vec<DrawOp> = Vec::new();
    let mut diagnostics: Vec<crate::ops::Diagnostic> = Vec::new();
    ops.append(&mut first.ops);
    ops.append(&mut second.ops);
    ops.append(&mut third.ops);
    diagnostics.append(&mut first.diagnostics);
    diagnostics.append(&mut second.diagnostics);
    diagnostics.append(&mut third.diagnostics);
    let out = RenderOutput { ops, diagnostics };
    proof {
        assert(ops_view(out.ops@) =~~= build_food_ops(*hotdog, food_icon_bytes(*icons, *hotdog))
            + build_food_ops(*sandwich, food_icon_bytes(*icons, *sandwich))
            + build_food_ops(*energy_drink, food_icon_bytes(*icons, *energy_drink)));
        assert(out.diagnostics@ =~= icon_diags(
            spec_food_icon(hotdog.kind, hotdog.highlighted),
            food_icon_bytes(*icons, *hotdog),
        )
            + icon_diags(
            spec_food_icon(sandwich.kind, sandwich.highlighted),
            food_icon_bytes(*icons, *sandwich),
        )
            + icon_diags(
            spec_food_icon(energy_drink.kind, energy_drink.highlighted),
            food_icon_bytes(*icons, *energy_drink),
        ));
    }
    out
}

} // verus!
