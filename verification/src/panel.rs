//! Panel entities: the state snapshots the renderer consumes.
//!
//! A panel is either a purchasable food item or a sensor reading.  The kind
//! is a closed enumeration, never a free-form string, so a misspelt name
//! cannot silently select no behaviour.  Money is carried as whole cents and
//! measurements as whole tenths; the caller converts and clamps its live
//! values before building a snapshot.

use vstd::prelude::*;
use crate::geometry::{origin_in_range, Point};

verus! {

/// The closed set of purchasable items.
#[derive(Clone, Copy, PartialEq, Eq, Structural, Debug)]
pub enum FoodKind {
    Hotdog,
    Sandwich,
    EnergyDrink,
}

/// The closed set of sensor readings.
#[derive(Clone, Copy, PartialEq, Eq, Structural, Debug)]
pub enum SensorType {
    Temperature,
    Pressure,
    Humidity,
}

/// One food-item purchase tile.
#[derive(Clone, Copy, PartialEq, Eq, Structural, Debug)]
pub struct FoodItem {
    /// Which item this tile sells.
    pub kind: FoodKind,
    /// Top-left anchor of the tile in surface coordinates.
    pub origin: Point,
    /// How many are in stock; non-negative by construction.
    pub amount: u64,
    /// Unit price in whole cents; non-negative by construction.
    pub price_cents: u64,
    /// Selection state: changes the icon asset and the border palette.
    pub highlighted: bool,
    /// Completion state: changes the buy button's fill colour.
    pub purchased: bool,
}

impl FoodItem {
    /// A snapshot the renderer accepts.
    pub open spec fn wf(self) -> bool {
        origin_in_range(self.origin)
    }
}

/// One sensor-reading tile.
#[derive(Clone, Copy, PartialEq, Eq, Structural, Debug)]
pub struct SensorData {
    /// Which reading this tile shows.
    pub sensor_type: SensorType,
    /// Top-left anchor of the tile in surface coordinates.
    pub origin: Point,
    /// The measurement in whole tenths; the caller rounds and clamps.
    pub value_tenths: u64,
}

impl SensorData {
    /// A snapshot the renderer accepts.
    pub open spec fn wf(self) -> bool {
        origin_in_range(self.origin)
    }
}

} // verus!
