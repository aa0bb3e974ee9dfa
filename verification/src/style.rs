//! Style table: the colour rules derived from a panel's state.
//!
//! Colours are 16-bit RGB words packed 5-6-5, the raster surface's native
//! format.  The named constants below are the CSS colours the panels use,
//! converted from their 8-bit-per-channel definitions by rounding each
//! channel to its narrower width (`round(v * 31 / 255)` for red and blue,
//! `round(v * 63 / 255)` for green) and packing red into the top five bits,
//! green into the middle six and blue into the low five.

use vstd::prelude::*;

verus! {

/// Black, packed 5-6-5.
pub const COLOR_BLACK: u16 = 0x0000;

/// White, packed 5-6-5.
pub const COLOR_WHITE: u16 = 0xFFFF;

/// CSS alice blue (240, 248, 255), packed 5-6-5.
pub const COLOR_ALICE_BLUE: u16 = 0xEFBF;

/// CSS dark green (0, 100, 0), packed 5-6-5.
pub const COLOR_DARK_GREEN: u16 = 0x0320;

/// CSS dark sea green (143, 188, 143), packed 5-6-5.
pub const COLOR_DARK_SEA_GREEN: u16 = 0x8DD1;

/// CSS light green (144, 238, 144), packed 5-6-5.
pub const COLOR_LIGHT_GREEN: u16 = 0x9772;

/// The colours one panel is drawn with: a pure function of its state,
/// recomputed on every render and never cached.
#[derive(Clone, Copy, PartialEq, Eq, Structural, Debug)]
pub struct Style {
    /// Border frame stroke colour.
    pub border_stroke: u16,
    /// Border frame fill colour.
    pub border_fill: u16,
    /// Buy button fill colour.
    pub button_fill: u16,
}

/// The colour rules: a highlighted panel gets the green border palette, a
/// purchased panel gets the green button fill.
pub open spec fn spec_panel_style(highlighted: bool, purchased: bool) -> Style {
    Style {
        border_stroke: if highlighted {
            COLOR_DARK_GREEN
        } else {
            COLOR_BLACK
        },
        border_fill: if highlighted {
            COLOR_DARK_SEA_GREEN
        } else {
            COLOR_WHITE
        },
        button_fill: if purchased {
            COLOR_LIGHT_GREEN
        } else {
            COLOR_ALICE_BLUE
        },
    }
}

/// Style table lookup.
pub fn panel_style(highlighted: bool, purchased: bool) -> (s: Style)
    ensures
        s == spec_panel_style(highlighted, purchased),
{
    Style {
        border_stroke: if highlighted {
            COLOR_DARK_GREEN
        } else {
            COLOR_BLACK
        },
        border_fill: if highlighted {
            COLOR_DARK_SEA_GREEN
        } else {
            COLOR_WHITE
        },
        button_fill: if purchased {
            COLOR_LIGHT_GREEN
        } else {
            COLOR_ALICE_BLUE
        },
    }
}

} // verus!
