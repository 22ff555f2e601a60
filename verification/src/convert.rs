use vstd::prelude::*;
use vstd::string::StringExecFns;
use crate::units::{Factor, QuantityKind, UnitInfo};

verus! {

/// How the base-unit magnitude is obtained from the input magnitude:
/// multiply by the factor, or — for the one inverse relation, fuel
/// economy — divide the factor by the magnitude.
#[derive(Clone, Copy, PartialEq, Eq, Structural, Debug)]
pub enum ConversionOp {
    Multiply(Factor),
    DivideFactorBy(Factor),
}

/// The arithmetic a looked-up unit asks for.
pub fn conversion_op(info: &UnitInfo) -> (op: ConversionOp)
    ensures
        op == (if info.kind == QuantityKind::Mileage {
            ConversionOp::DivideFactorBy(info.factor)
        } else {
            ConversionOp::Multiply(info.factor)
        }),
{
    match info.kind {
        QuantityKind::Mileage => ConversionOp::DivideFactorBy(info.factor),
        _ => ConversionOp::Multiply(info.factor),
    }
}

/// The display unit of a kind, and an extra multiplier to apply to the
/// magnitude before display. Velocity is the one kind whose display unit
/// depends on the magnitude: below one meter per second it stays in m/s,
/// otherwise it is shown in km/h, which multiplies the magnitude by 3.6
/// (the exact decimal 36/10¹).
pub open spec fn display_model(kind: QuantityKind, below_one: bool) -> (Seq<char>, Option<
    Factor,
>) {
    match kind {
        QuantityKind::Length => ("m"@, None),
        QuantityKind::Mass => ("g"@, None),
        QuantityKind::Pressure => ("bar"@, None),
        QuantityKind::Velocity => if below_one {
            ("m/s"@, None)
        } else {
            ("km/h"@, Some(Factor { mantissa: 36, exp10: 1 }))
        },
        QuantityKind::Acceleration => ("m/s²"@, None),
        QuantityKind::Mileage => ("L/100km"@, None),
        QuantityKind::Volume => ("L"@, None),
        QuantityKind::Area => ("m²"@, None),
    }
}

/// Picks the display unit for a kind. `below_one` reports whether the
/// converted magnitude is below one; it only matters for Velocity.
pub fn display_unit(kind: QuantityKind, below_one: bool) -> (r: (String, Option<Factor>))
    ensures
        r.0@ == display_model(kind, below_one).0,
        r.1 == display_model(kind, below_one).1,
{
    match kind {
        QuantityKind::Length => (String::from_str("m"), None),
        QuantityKind::Mass => (String::from_str("g"), None),
        QuantityKind::Pressure => (String::from_str("bar"), None),
        QuantityKind::Velocity => if below_one {
            (String::from_str("m/s"), None)
        } else {
            (String::from_str("km/h"), Some(Factor { mantissa: 36, exp10: 1 }))
        },
        QuantityKind::Acceleration => (String::from_str("m/s²"), None),
        QuantityKind::Mileage => (String::from_str("L/100km"), None),
        QuantityKind::Volume => (String::from_str("L"), None),
        QuantityKind::Area => (String::from_str("m²"), None),
    }
}

/// Joins the selected metric prefix and the display unit into the final
/// unit label.
pub fn compose_label(prefix: &str, unit: &str) -> (r: String)
    ensures
        r@ == prefix@ + unit@,
{
    let mut label = String::from_str(prefix);
    label.append(unit);
    label
}

} // verus!
