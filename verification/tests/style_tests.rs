use embedded_graphics::pixelcolor::Rgb565;
use embedded_graphics::prelude::{IntoStorage, RgbColor, WebColors};
use panel_ui::style::{
    panel_style, COLOR_ALICE_BLUE, COLOR_BLACK, COLOR_DARK_GREEN, COLOR_DARK_SEA_GREEN,
    COLOR_LIGHT_GREEN, COLOR_WHITE,
};

#[test]
fn packed_colors_match_the_display_palette() {
    // The library's packed 5-6-5 words equal the display stack's own
    // definitions of the same CSS colours.
    assert_eq!(COLOR_BLACK, Rgb565::BLACK.into_storage());
    assert_eq!(COLOR_WHITE, Rgb565::WHITE.into_storage());
    assert_eq!(COLOR_ALICE_BLUE, Rgb565::CSS_ALICE_BLUE.into_storage());
    assert_eq!(COLOR_DARK_GREEN, Rgb565::CSS_DARK_GREEN.into_storage());
    assert_eq!(COLOR_DARK_SEA_GREEN, Rgb565::CSS_DARK_SEA_GREEN.into_storage());
    assert_eq!(COLOR_LIGHT_GREEN, Rgb565::CSS_LIGHT_GREEN.into_storage());
}

#[test]
fn style_rules() {
    let plain = panel_style(false, false);
    assert_eq!(plain.border_stroke, COLOR_BLACK);
    assert_eq!(plain.border_fill, COLOR_WHITE);
    assert_eq!(plain.button_fill, COLOR_ALICE_BLUE);

    let highlighted = panel_style(true, false);
    assert_eq!(highlighted.border_stroke, COLOR_DARK_GREEN);
    assert_eq!(highlighted.border_fill, COLOR_DARK_SEA_GREEN);
    assert_eq!(highlighted.button_fill, COLOR_ALICE_BLUE);

    let purchased = panel_style(false, true);
    assert_eq!(purchased.border_stroke, COLOR_BLACK);
    assert_eq!(purchased.button_fill, COLOR_LIGHT_GREEN);

    let both = panel_style(true, true);
    assert_eq!(both.border_fill, COLOR_DARK_SEA_GREEN);
    assert_eq!(both.button_fill, COLOR_LIGHT_GREEN);
}
