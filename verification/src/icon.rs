//! Icon selector and icon asset table.
//!
//! Exactly one icon asset corresponds to each (kind, highlighted) pair; the
//! selector is a total function over the closed kind enumerations.  The
//! assets themselves are raw BMP bytes supplied by the caller in an
//! `IconTable`; packaging them is outside this core.  A missing table entry
//! means "draw no icon" and is an intentional no-op, while an entry whose
//! bytes do not parse as a BMP image is a decode failure that is reported
//! and then skipped, never fatal to the render pass.

use vstd::prelude::*;
use crate::panel::{FoodKind, SensorType};

verus! {

/// The closed set of icon assets.
#[derive(Clone, Copy, PartialEq, Eq, Structural, Debug)]
pub enum IconId {
    Hotdog,
    HotdogHighlighted,
    Sandwich,
    SandwichHighlighted,
    EnergyDrink,
    EnergyDrinkHighlighted,
    Temperature,
    Pressure,
    Humidity,
}

/// The icon asset for a food tile: the highlighted variant when selected.
pub open spec fn spec_food_icon(kind: FoodKind, highlighted: bool) -> IconId {
    match kind {
        FoodKind::Hotdog => if highlighted {
            IconId::HotdogHighlighted
        } else {
            IconId::Hotdog
        },
        FoodKind::Sandwich => if highlighted {
            IconId::SandwichHighlighted
        } else {
            IconId::Sandwich
        },
        FoodKind::EnergyDrink => if highlighted {
            IconId::EnergyDrinkHighlighted
        } else {
            IconId::EnergyDrink
        },
    }
}

/// The icon asset for a sensor tile.
pub open spec fn spec_sensor_icon(sensor_type: SensorType) -> IconId {
    match sensor_type {
        SensorType::Temperature => IconId::Temperature,
        SensorType::Pressure => IconId::Pressure,
        SensorType::Humidity => IconId::Humidity,
    }
}

/// Icon selector for food tiles.
pub fn select_food_icon(kind: FoodKind, highlighted: bool) -> (r: IconId)
    ensures
        r == spec_food_icon(kind, highlighted),
{
    match kind {
        FoodKind::Hotdog => if highlighted {
            IconId::HotdogHighlighted
        } else {
            IconId::Hotdog
        },
        FoodKind::Sandwich => if highlighted {
            IconId::SandwichHighlighted
        } else {
            IconId::Sandwich
        },
        FoodKind::EnergyDrink => if highlighted {
            IconId::EnergyDrinkHighlighted
        } else {
            IconId::EnergyDrink
        },
    }
}

/// Icon selector for sensor tiles.
pub fn select_sensor_icon(sensor_type: SensorType) -> (r: IconId)
    ensures
        r == spec_sensor_icon(sensor_type),
{
    match sensor_type {
        SensorType::Temperature => IconId::Temperature,
        SensorType::Pressure => IconId::Pressure,
        SensorType::Humidity => IconId::Humidity,
    }
}

/// The caller-supplied icon assets, raw BMP bytes per asset.  An absent
/// entry means the asset was not packaged and its icon is skipped.
#[derive(Clone, PartialEq, Eq, Debug)]
pub struct IconTable {
    pub hotdog: Option<Vec<u8>>,
    pub hotdog_highlighted: Option<Vec<u8>>,
    pub sandwich: Option<Vec<u8>>,
    pub sandwich_highlighted: Option<Vec<u8>>,
    pub energy_drink: Option<Vec<u8>>,
    pub energy_drink_highlighted: Option<Vec<u8>>,
    pub temperature: Option<Vec<u8>>,
    pub pressure: Option<Vec<u8>>,
    pub humidity: Option<Vec<u8>>,
}

impl IconTable {
    /// The bytes stored for one asset, if any.
    pub open spec fn spec_bytes(self, id: IconId) -> Option<Seq<u8>> {
        match self.field_for(id) {
            Some(v) => Some(v@),
            None => None,
        }
    }

    /// The table field that holds one asset.
    pub open spec fn field_for(self, id: IconId) -> Option<Vec<u8>> {
        match id {
            IconId::Hotdog => self.hotdog,
            IconId::HotdogHighlighted => self.hotdog_highlighted,
            IconId::Sandwich => self.sandwich,
            IconId::SandwichHighlighted => self.sandwich_highlighted,
            IconId::EnergyDrink => self.energy_drink,
            IconId::EnergyDrinkHighlighted => self.energy_drink_highlighted,
            IconId::Temperature => self.temperature,
            IconId::Pressure => self.pressure,
            IconId::Humidity => self.humidity,
        }
    }

    /// Looks one asset up.
    pub fn bytes_for(&self, id: IconId) -> (r: Option<&Vec<u8>>)
        ensures
            match r {
                Some(v) => self.spec_bytes(id) == Some(v@),
                None => self.spec_bytes(id) is None,
            },
    {
        match id {
            IconId::Hotdog => self.hotdog.as_ref(),
            IconId::HotdogHighlighted => self.hotdog_highlighted.as_ref(),
            IconId::Sandwich => self.sandwich.as_ref(),
            IconId::SandwichHighlighted => self.sandwich_highlighted.as_ref(),
            IconId::EnergyDrink => self.energy_drink.as_ref(),
            IconId::EnergyDrinkHighlighted => self.energy_drink_highlighted.as_ref(),
            IconId::Temperature => self.temperature.as_ref(),
            IconId::Pressure => self.pressure.as_ref(),
            IconId::Humidity => self.humidity.as_ref(),
        }
    }

    /// A table with no assets at all; every icon draw becomes a no-op.
    pub fn empty() -> (r: IconTable)
        ensures
            forall|id: IconId| r.spec_bytes(id) is None,
    {
        IconTable {
            hotdog: None,
            hotdog_highlighted: None,
            sandwich: None,
            sandwich_highlighted: None,
            energy_drink: None,
            energy_drink_highlighted: None,
            temperature: None,
            pressure: None,
            humidity: None,
        }
    }
}

/// Whether a byte sequence parses as a BMP image.  The parse is a pure
/// function of the bytes; its exact condition lives in the decoder.
pub uninterp spec fn bmp_parses(bytes: Seq<u8>) -> bool;

/// Relies on tinybmp::RawBmp::from_slice: whether the bytes parse as a BMP
/// image is decided from the byte slice alone, with no other input.
/// (tinybmp::Bmp::from_slice accepts exactly the same byte slices: it parses
/// through RawBmp::from_slice and adds nothing.)
#[verifier::external_body]
pub(crate) fn probe_bmp(bytes: &[u8]) -> (ok: bool)
    ensures
        ok == bmp_parses(bytes@),
{
    tinybmp::RawBmp::from_slice(bytes).is_ok()
}

} // verus!
