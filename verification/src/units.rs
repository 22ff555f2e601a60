use vstd::prelude::*;

verus! {

/// A family of physically commensurable units sharing one base unit
/// (length in meters, mass in grams, pressure in bars, velocity in m/s,
/// acceleration in m/s², fuel economy in L/100km, volume in liters,
/// area in square meters).
#[derive(Clone, Copy, PartialEq, Eq, Structural, Debug)]
pub enum QuantityKind {
    Length,
    Mass,
    Pressure,
    Velocity,
    Acceleration,
    Mileage,
    Volume,
    Area,
}

/// An exact decimal number `mantissa / 10^exp10`, used for conversion
/// factors so that the table can be stated and checked exactly.
#[derive(Clone, Copy, PartialEq, Eq, Structural, Debug)]
pub struct Factor {
    pub mantissa: u64,
    pub exp10: u32,
}

impl Factor {
    /// Every conversion factor is strictly positive.
    pub open spec fn wf(self) -> bool {
        self.mantissa > 0
    }
}

/// What the unit table records for one accepted unit name: the quantity
/// kind it belongs to and the factor into that kind's base unit (for
/// Mileage the relation is inverse: base-quantity = factor / magnitude).
#[derive(Clone, Copy, PartialEq, Eq, Structural, Debug)]
pub struct UnitInfo {
    pub kind: QuantityKind,
    pub factor: Factor,
}

} // verus!
