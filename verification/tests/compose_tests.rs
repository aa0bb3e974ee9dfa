use panel_ui::geometry::{Point, Rect};
use panel_ui::icon::IconTable;
use panel_ui::ops::{Diagnostic, DrawOp};
use panel_ui::panel::{FoodItem, FoodKind, SensorData, SensorType};
use panel_ui::render::{build_food_item, draw_sensor_data};
use panel_ui::style::{COLOR_BLACK, COLOR_WHITE};
use panel_ui::{build_inventory, build_sensor_ui};

fn item(kind: FoodKind, y: i32, highlighted: bool) -> FoodItem {
    FoodItem {
        kind,
        origin: Point { x: 10, y },
        amount: 1,
        price_cents: 100,
        highlighted,
        purchased: false,
    }
}

#[test]
fn inventory_is_each_tile_in_order() {
    let hotdog = item(FoodKind::Hotdog, 10, true);
    let sandwich = item(FoodKind::Sandwich, 90, false);
    let energy_drink = item(FoodKind::EnergyDrink, 170, false);
    let icons = IconTable::empty();

    let whole = build_inventory(&hotdog, &sandwich, &energy_drink, &icons);
    let mut expected = Vec::new();
    expected.extend(build_food_item(&hotdog, &icons).ops);
    expected.extend(build_food_item(&sandwich, &icons).ops);
    expected.extend(build_food_item(&energy_drink, &icons).ops);
    assert_eq!(whole.ops, expected);
    assert!(whole.diagnostics.is_empty());
}

#[test]
fn inventory_completes_despite_one_bad_icon() {
    // A decode failure on one tile is reported, and every tile still
    // renders: the pass never aborts on a sibling's failure.
    let hotdog = item(FoodKind::Hotdog, 10, false);
    let sandwich = item(FoodKind::Sandwich, 90, false);
    let energy_drink = item(FoodKind::EnergyDrink, 170, false);
    let mut icons = IconTable::empty();
    icons.sandwich = Some(vec![0xBA, 0xD0]);

    let whole = build_inventory(&hotdog, &sandwich, &energy_drink, &icons);
    assert_eq!(whole.diagnostics.len(), 1);
    assert!(matches!(whole.diagnostics[0], Diagnostic::AssetDecodeFailure { .. }));
    // All three borders are present.
    let borders = whole
        .ops
        .iter()
        .filter(|op| matches!(op, DrawOp::RoundedRect { rect: Rect { w: 300, h: 65, .. }, .. }))
        .count();
    assert_eq!(borders, 3);
}

#[test]
fn sensor_ui_draws_overlay_then_each_tile() {
    let temperature = SensorData {
        sensor_type: SensorType::Temperature,
        origin: Point { x: 40, y: 70 },
        value_tenths: 215,
    };
    let humidity = SensorData {
        sensor_type: SensorType::Humidity,
        origin: Point { x: 130, y: 70 },
        value_tenths: 440,
    };
    let pressure = SensorData {
        sensor_type: SensorType::Pressure,
        origin: Point { x: 220, y: 70 },
        value_tenths: 10132,
    };
    let icons = IconTable::empty();

    let whole = build_sensor_ui(&temperature, &humidity, &pressure, &icons);
    assert_eq!(
        whole.ops[0],
        DrawOp::RoundedRect {
            rect: Rect { x: 19, y: 50, w: 280, h: 150 },
            corner: 10,
            stroke_width: 5,
            stroke_color: COLOR_BLACK,
            fill_color: COLOR_WHITE,
        }
    );
    let mut expected = vec![whole.ops[0].clone()];
    expected.extend(draw_sensor_data(&temperature, &icons).ops);
    expected.extend(draw_sensor_data(&humidity, &icons).ops);
    expected.extend(draw_sensor_data(&pressure, &icons).ops);
    assert_eq!(whole.ops, expected);
}
