use unit_converter::convert::{conversion_op, display_unit, ConversionOp};
use unit_converter::rescale::{prefix_symbol, Rescaler};
use unit_converter::units::{Factor, QuantityKind, UnitInfo};

#[test]
fn prefix_scale_symbols() {
    let symbols = ["T", "G", "M", "k", "h", "da", "", "d", "c", "m", "µ", "n", "p"];
    for (i, s) in symbols.iter().enumerate() {
        assert_eq!(&prefix_symbol(i), s);
    }
}

#[test]
fn rescaler_ranges_per_kind() {
    for kind in [QuantityKind::Length, QuantityKind::Mass, QuantityKind::Pressure] {
        let r = Rescaler::new_for(kind).unwrap();
        assert_eq!((r.idx, r.lo, r.hi), (6, 3, 10));
    }
    let r = Rescaler::new_for(QuantityKind::Volume).unwrap();
    assert_eq!((r.idx, r.lo, r.hi), (6, 6, 10));
    for kind in [
        QuantityKind::Velocity,
        QuantityKind::Acceleration,
        QuantityKind::Mileage,
        QuantityKind::Area,
    ] {
        assert!(Rescaler::new_for(kind).is_none());
    }
}

#[test]
fn rescaler_steps_stop_at_bounds() {
    let mut r = Rescaler::new_for(QuantityKind::Length).unwrap();
    // Three steps down reach the lower bound; the fourth is refused.
    assert!(r.step_down());
    assert!(r.step_down());
    assert!(r.step_down());
    assert_eq!(r.idx, 3);
    assert_eq!(&r.prefix(), &"k");
    assert!(!r.step_down());
    assert_eq!(r.idx, 3);

    let mut r = Rescaler::new_for(QuantityKind::Volume).unwrap();
    // Volume may not move below the base unit at all.
    assert!(!r.step_down());
    assert_eq!(r.idx, 6);
    assert_eq!(&r.prefix(), &"");
    // Four steps up reach the upper bound; the fifth is refused.
    for _ in 0..4 {
        assert!(r.step_up());
    }
    assert_eq!(r.idx, 10);
    assert_eq!(&r.prefix(), &"µ");
    assert!(!r.step_up());
    assert_eq!(r.idx, 10);
}

#[test]
fn conversion_op_is_inverse_only_for_mileage() {
    let f = Factor { mantissa: 23521458329475, exp10: 11 };
    let info = UnitInfo { kind: QuantityKind::Mileage, factor: f };
    assert_eq!(conversion_op(&info), ConversionOp::DivideFactorBy(f));
    let f = Factor { mantissa: 3048, exp10: 4 };
    let info = UnitInfo { kind: QuantityKind::Length, factor: f };
    assert_eq!(conversion_op(&info), ConversionOp::Multiply(f));
    let info = UnitInfo { kind: QuantityKind::Area, factor: f };
    assert_eq!(conversion_op(&info), ConversionOp::Multiply(f));
}

#[test]
fn display_units_per_kind() {
    assert_eq!(display_unit(QuantityKind::Length, false).0, "m");
    assert_eq!(display_unit(QuantityKind::Mass, false).0, "g");
    assert_eq!(display_unit(QuantityKind::Pressure, false).0, "bar");
    assert_eq!(display_unit(QuantityKind::Acceleration, false).0, "m/s²");
    assert_eq!(display_unit(QuantityKind::Mileage, false).0, "L/100km");
    assert_eq!(display_unit(QuantityKind::Volume, false).0, "L");
    assert_eq!(display_unit(QuantityKind::Area, false).0, "m²");
}

#[test]
fn velocity_display_depends_on_magnitude() {
    let (label, extra) = display_unit(QuantityKind::Velocity, true);
    assert_eq!(label, "m/s");
    assert!(extra.is_none());
    let (label, extra) = display_unit(QuantityKind::Velocity, false);
    assert_eq!(label, "km/h");
    assert_eq!(extra, Some(Factor { mantissa: 36, exp10: 1 }));
}
