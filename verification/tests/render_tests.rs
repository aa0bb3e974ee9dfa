use panel_ui::geometry::{Point, Rect};
use panel_ui::icon::{IconId, IconTable};
use panel_ui::ops::{Diagnostic, DrawOp};
use panel_ui::panel::{FoodItem, FoodKind, SensorData, SensorType};
use panel_ui::render::{build_food_item, draw_sensor_data, update_field, update_sensor_data};
use panel_ui::style::{COLOR_ALICE_BLUE, COLOR_BLACK, COLOR_LIGHT_GREEN, COLOR_WHITE};

/// A smallest well-formed BMP: one 24-bit pixel.
fn tiny_bmp() -> Vec<u8> {
    let mut v = Vec::new();
    v.extend_from_slice(b"BM");
    v.extend_from_slice(&58u32.to_le_bytes()); // file size
    v.extend_from_slice(&[0, 0, 0, 0]); // reserved
    v.extend_from_slice(&54u32.to_le_bytes()); // pixel data offset
    v.extend_from_slice(&40u32.to_le_bytes()); // info header size
    v.extend_from_slice(&1i32.to_le_bytes()); // width
    v.extend_from_slice(&1i32.to_le_bytes()); // height
    v.extend_from_slice(&1u16.to_le_bytes()); // planes
    v.extend_from_slice(&24u16.to_le_bytes()); // bits per pixel
    v.extend_from_slice(&0u32.to_le_bytes()); // compression: none
    v.extend_from_slice(&4u32.to_le_bytes()); // image data size
    v.extend_from_slice(&0u32.to_le_bytes()); // x pixels per metre
    v.extend_from_slice(&0u32.to_le_bytes()); // y pixels per metre
    v.extend_from_slice(&0u32.to_le_bytes()); // palette colours
    v.extend_from_slice(&0u32.to_le_bytes()); // important colours
    v.extend_from_slice(&[0xFF, 0x00, 0x00, 0x00]); // one pixel plus row padding
    v
}

fn sandwich_item() -> FoodItem {
    FoodItem {
        kind: FoodKind::Sandwich,
        origin: Point { x: 10, y: 90 },
        amount: 3,
        price_cents: 450,
        highlighted: false,
        purchased: false,
    }
}

fn table_with_sandwich(bytes: Vec<u8>) -> IconTable {
    let mut t = IconTable::empty();
    t.sandwich = Some(bytes);
    t
}

/// The bounding extent an operation may touch.
fn op_extent(op: &DrawOp) -> Option<Rect> {
    match op {
        DrawOp::RoundedRect { rect, stroke_width, .. } => {
            let m = ((stroke_width + 1) / 2) as i32;
            Some(Rect {
                x: rect.x - m,
                y: rect.y - m,
                w: rect.w + 2 * m as u32,
                h: rect.h + 2 * m as u32,
            })
        }
        DrawOp::Text { bounds, .. } => Some(*bounds),
        DrawOp::Image { .. } => None,
    }
}

fn overlaps(a: &Rect, b: &Rect) -> bool {
    !(a.x + a.w as i32 <= b.x
        || b.x + b.w as i32 <= a.x
        || a.y + a.h as i32 <= b.y
        || b.y + b.h as i32 <= a.y)
}

#[test]
fn tiny_bmp_is_a_valid_bmp() {
    assert!(tinybmp::RawBmp::from_slice(&tiny_bmp()).is_ok());
}

#[test]
fn build_sandwich_scenario() {
    // An unhighlighted, unpurchased sandwich tile: black-on-white border,
    // the plain (non-highlighted) sandwich icon, and an unhighlighted
    // button.  Build paints no dynamic text.
    let item = sandwich_item();
    let icons = table_with_sandwich(tiny_bmp());
    let out = build_food_item(&item, &icons);
    assert!(out.diagnostics.is_empty());
    assert_eq!(out.ops.len(), 9);

    assert_eq!(
        out.ops[0],
        DrawOp::RoundedRect {
            rect: Rect { x: 10, y: 90, w: 300, h: 65 },
            corner: 10,
            stroke_width: 5,
            stroke_color: COLOR_BLACK,
            fill_color: COLOR_WHITE,
        }
    );
    assert_eq!(out.ops[1], DrawOp::Image { icon: IconId::Sandwich, x: 20, y: 100 });

    match &out.ops[2] {
        DrawOp::Text { text, .. } => assert_eq!(text, b"Amount"),
        other => panic!("expected the amount caption, got {other:?}"),
    }
    match &out.ops[3] {
        DrawOp::Text { text, .. } => assert_eq!(text, b"Price"),
        other => panic!("expected the price caption, got {other:?}"),
    }
    // The two field boxes, then the button box with the unpurchased fill.
    assert_eq!(
        out.ops[6],
        DrawOp::RoundedRect {
            rect: Rect { x: 240, y: 100, w: 60, h: 45 },
            corner: 5,
            stroke_width: 3,
            stroke_color: COLOR_BLACK,
            fill_color: COLOR_ALICE_BLUE,
        }
    );
    match &out.ops[7] {
        DrawOp::Text { text, .. } => assert_eq!(text, b"BUY"),
        other => panic!("expected the button caption, got {other:?}"),
    }

    // No dynamic text yet: "3" and "$4.50" appear only in the update pass.
    let update = update_field(&item);
    assert_eq!(update.len(), 4);
    match &update[2] {
        DrawOp::Text { text, bounds, .. } => {
            assert_eq!(text, b"3");
            assert_eq!(*bounds, Rect { x: 90, y: 115, w: 50, h: 30 });
        }
        other => panic!("expected the amount value, got {other:?}"),
    }
    match &update[3] {
        DrawOp::Text { text, bounds, .. } => {
            assert_eq!(text, b"$4.50");
            assert_eq!(*bounds, Rect { x: 160, y: 115, w: 70, h: 30 });
        }
        other => panic!("expected the price value, got {other:?}"),
    }
}

#[test]
fn highlighted_purchased_palette() {
    let mut item = sandwich_item();
    item.highlighted = true;
    item.purchased = true;
    let out = build_food_item(&item, &IconTable::empty());
    match &out.ops[0] {
        DrawOp::RoundedRect { stroke_color, fill_color, .. } => {
            assert_eq!(*stroke_color, panel_ui::style::COLOR_DARK_GREEN);
            assert_eq!(*fill_color, panel_ui::style::COLOR_DARK_SEA_GREEN);
        }
        other => panic!("expected the border, got {other:?}"),
    }
    match &out.ops[5] {
        DrawOp::RoundedRect { fill_color, .. } => assert_eq!(*fill_color, COLOR_LIGHT_GREEN),
        other => panic!("expected the button box, got {other:?}"),
    }
}

#[test]
fn update_ignores_button_after_purchase() {
    // Flipping `purchased` and calling only the update pass leaves the
    // button region untouched: its colour change needs a full build.
    let mut item = sandwich_item();
    item.purchased = true;
    let button = Rect { x: 240, y: 100, w: 60, h: 45 };
    let update = update_field(&item);
    assert_eq!(update.len(), 4);
    for op in &update {
        let extent = op_extent(op).expect("update passes blit no images");
        assert!(!overlaps(&extent, &button), "update touches the button: {op:?}");
    }
}

#[test]
fn update_twice_is_identical() {
    // Two updates from the same snapshot yield the same operations, so a
    // deterministic surface shows the same pixels.
    let item = sandwich_item();
    assert_eq!(update_field(&item), update_field(&item));
    let data = SensorData {
        sensor_type: SensorType::Humidity,
        origin: Point { x: 130, y: 70 },
        value_tenths: 555,
    };
    assert_eq!(update_sensor_data(&data), update_sensor_data(&data));
}

#[test]
fn update_clears_field_before_shorter_value() {
    // After showing "100", an update to "3" first re-draws the amount
    // field's background box, and only then paints the shorter text into
    // the same bounds: no glyph of the longer value survives.
    let mut item = sandwich_item();
    item.amount = 100;
    let first = update_field(&item);
    match &first[2] {
        DrawOp::Text { text, .. } => assert_eq!(text, b"100"),
        other => panic!("expected the amount value, got {other:?}"),
    }

    item.amount = 3;
    let second = update_field(&item);
    let field = Rect { x: 90, y: 115, w: 50, h: 30 };
    assert_eq!(
        second[0],
        DrawOp::RoundedRect {
            rect: field,
            corner: 5,
            stroke_width: 3,
            stroke_color: COLOR_BLACK,
            fill_color: COLOR_ALICE_BLUE,
        }
    );
    match &second[2] {
        DrawOp::Text { text, bounds, .. } => {
            assert_eq!(text, b"3");
            assert_eq!(*bounds, field);
        }
        other => panic!("expected the amount value, got {other:?}"),
    }
}

#[test]
fn missing_icon_is_a_silent_no_op() {
    let item = sandwich_item();
    let out = build_food_item(&item, &IconTable::empty());
    assert!(out.diagnostics.is_empty());
    assert!(out.ops.iter().all(|op| !matches!(op, DrawOp::Image { .. })));
    assert_eq!(out.ops.len(), 8);
}

#[test]
fn malformed_icon_is_reported_and_skipped() {
    let item = sandwich_item();
    let out = build_food_item(&item, &table_with_sandwich(vec![1, 2, 3]));
    assert_eq!(out.diagnostics, vec![Diagnostic::AssetDecodeFailure { icon: IconId::Sandwich }]);
    assert!(out.ops.iter().all(|op| !matches!(op, DrawOp::Image { .. })));
    assert_eq!(out.ops.len(), 8);
}

#[test]
fn highlighted_tile_selects_highlighted_icon() {
    let mut item = sandwich_item();
    item.highlighted = true;
    let mut icons = IconTable::empty();
    icons.sandwich_highlighted = Some(tiny_bmp());
    let out = build_food_item(&item, &icons);
    assert!(out.diagnostics.is_empty());
    assert_eq!(out.ops[1], DrawOp::Image { icon: IconId::SandwichHighlighted, x: 20, y: 100 });
}

#[test]
fn sensor_build_and_update() {
    let data = SensorData {
        sensor_type: SensorType::Temperature,
        origin: Point { x: 40, y: 70 },
        value_tenths: 314,
    };
    let mut icons = IconTable::empty();
    icons.temperature = Some(tiny_bmp());
    let out = draw_sensor_data(&data, &icons);
    assert!(out.diagnostics.is_empty());
    assert_eq!(out.ops.len(), 2);
    assert_eq!(out.ops[0], DrawOp::Image { icon: IconId::Temperature, x: 43, y: 70 });
    assert_eq!(
        out.ops[1],
        DrawOp::RoundedRect {
            rect: Rect { x: 40, y: 140, w: 70, h: 35 },
            corner: 10,
            stroke_width: 5,
            stroke_color: COLOR_BLACK,
            fill_color: COLOR_ALICE_BLUE,
        }
    );

    let update = update_sensor_data(&data);
    assert_eq!(update.len(), 2);
    assert_eq!(update[0], out.ops[1]);
    match &update[1] {
        DrawOp::Text { text, x, y, .. } => {
            assert_eq!(text, b"31.4");
            assert_eq!((*x, *y), (55, 163));
        }
        other => panic!("expected the value text, got {other:?}"),
    }
}

#[test]
fn amount_overflow_shows_marker() {
    let mut item = sandwich_item();
    item.amount = 10_000_000_000_000_000;
    let update = update_field(&item);
    match &update[2] {
        DrawOp::Text { text, .. } => assert_eq!(text, b"---"),
        other => panic!("expected the amount value, got {other:?}"),
    }
}
