use unit_converter::convert::{compose_label, conversion_op, display_unit, ConversionOp};
use unit_converter::parse::parse_input;
use unit_converter::rescale::Rescaler;
use unit_converter::table::{build_unit_table, UnitTable};
use unit_converter::units::Factor;

fn factor_value(f: &Factor) -> f64 {
    let mut p = 1.0f64;
    let mut i = 0u32;
    while i < f.exp10 {
        p *= 10.0;
        i += 1;
    }
    (f.mantissa as f64) / p
}

/// Runs the full conversion pipeline the way the interactive program does,
/// returning the displayed magnitude, the unit label, and the final prefix
/// index when the kind was rescaled.
fn run_convert_full(m: f64, key: &str, table: &UnitTable) -> (f64, String, Option<usize>) {
    match table.lookup(key) {
        None => (0.0, String::new(), None),
        Some(info) => {
            let mut result = match conversion_op(&info) {
                ConversionOp::Multiply(f) => m * factor_value(&f),
                ConversionOp::DivideFactorBy(f) => factor_value(&f) / m,
            };
            let (unit, extra) = display_unit(info.kind, result < 1.0);
            if let Some(f) = extra {
                result *= factor_value(&f);
            }
            let (prefix, idx) = match Rescaler::new_for(info.kind) {
                None => (String::new(), None),
                Some(mut r) => {
                    while result > 10.0 {
                        if r.step_down() {
                            result /= 10.0;
                        } else {
                            break;
                        }
                    }
                    while result < 1.0 {
                        if r.step_up() {
                            result *= 10.0;
                        } else {
                            break;
                        }
                    }
                    (r.prefix().to_string(), Some(r.idx))
                }
            };
            let label = compose_label(&prefix, &unit);
            (result, label, idx)
        }
    }
}

fn run_convert(m: f64, key: &str, table: &UnitTable) -> (f64, String) {
    let (v, l, _) = run_convert_full(m, key, table);
    (v, l)
}

fn close(a: f64, b: f64) -> bool {
    if b == 0.0 {
        a == 0.0
    } else {
        ((a - b) / b).abs() <= 1e-9
    }
}

#[test]
fn conversion() {
    let table = build_unit_table();
    let (v, l) = run_convert(10.0, "in", &table);
    assert!(close(v, 2.54));
    assert_eq!(l, "dm");
    let (v, l) = run_convert(10.0, "foot", &table);
    assert!(close(v, 3.048));
    assert_eq!(l, "m");
    let (v, l) = run_convert(10.0, "lb", &table);
    assert!(close(v, 4.5359237));
    assert_eq!(l, "kg");
}

#[test]
fn mileage_inverse() {
    let table = build_unit_table();
    let (v, l) = run_convert(10.0, "mpg", &table);
    assert_eq!(v, 235.21458329475 / 10.0);
    assert_eq!(l, "L/100km");
    let (v, l) = run_convert(7.5, "mpg", &table);
    assert_eq!(v, 235.21458329475 / 7.5);
    assert_eq!(l, "L/100km");
    let (v, l) = run_convert(400.0, "miles per gallon", &table);
    assert_eq!(v, 235.21458329475 / 400.0);
    assert_eq!(l, "L/100km");
}

#[test]
fn velocity_threshold() {
    let table = build_unit_table();
    // 1 ft/s converts to 0.3048 m/s, below one: stays in m/s, unchanged.
    let (v, l) = run_convert(1.0, "ft/s", &table);
    assert_eq!(v, 0.3048);
    assert_eq!(l, "m/s");
    // 10 mph converts to 4.4704 m/s, at least one: shown in km/h, times 3.6.
    let (v, l) = run_convert(10.0, "mph", &table);
    assert!(close(v, 16.09344));
    assert_eq!(l, "km/h");
    // Just below the threshold from above.
    let (v, l) = run_convert(1.9, "kn", &table);
    assert!(v < 1.0);
    assert_eq!(l, "m/s");
    // Just at the threshold.
    let (v, l) = run_convert(2.0, "kn", &table);
    assert!(close(v, 2.0 * 0.51444 * 3.6));
    assert_eq!(l, "km/h");
}

#[test]
fn prefix_bounds_lower() {
    let table = build_unit_table();
    // A million feet: the index stops at its lower bound (kilo) even though
    // the magnitude is still above ten.
    let (v, l, idx) = run_convert_full(1000000.0, "ft", &table);
    assert!(close(v, 304.8));
    assert_eq!(l, "km");
    assert_eq!(idx, Some(3));
}

#[test]
fn prefix_bounds_upper() {
    let table = build_unit_table();
    // A millionth of a grain: the index stops at its upper bound (micro)
    // even though the magnitude is still below one.
    let (v, l, idx) = run_convert_full(0.000001, "gt", &table);
    assert!(close(v, 0.0006479891));
    assert_eq!(l, "µg");
    assert_eq!(idx, Some(10));
}

#[test]
fn volume_prefix_range() {
    let table = build_unit_table();
    // Volume starts at the unscaled unit and may only move toward smaller
    // prefixes: half a us cup is 0.12 L, rescaled once to 1.2 dL.
    let (v, l, idx) = run_convert_full(0.5, "us cup", &table);
    assert!(close(v, 1.2));
    assert_eq!(l, "dL");
    assert_eq!(idx, Some(7));
    // Large volumes are never given a prefix above the base unit.
    let (v, l, idx) = run_convert_full(1000.0, "uk gal", &table);
    assert!(close(v, 4546.09));
    assert_eq!(l, "L");
    assert_eq!(idx, Some(6));
}

#[test]
fn rescaling_idempotent_on_output() {
    let table = build_unit_table();
    for (m, key) in [
        (10.0, "in"),
        (10.0, "lb"),
        (1000000.0, "ft"),
        (0.000001, "gt"),
        (0.5, "us cup"),
        (2.0, "atm"),
    ] {
        let (v, _, idx) = run_convert_full(m, key, &table);
        let idx = idx.expect("these kinds are all rescaled");
        let info = table.lookup(key).unwrap();
        let mut r = Rescaler::new_for(info.kind).unwrap();
        // Move the rescaler to the terminal state the first run reached.
        r.idx = idx;
        // Running both loops again on the terminal magnitude moves nothing.
        let mut again = v;
        while again > 10.0 {
            if r.step_down() {
                again /= 10.0;
            } else {
                break;
            }
        }
        while again < 1.0 {
            if r.step_up() {
                again *= 10.0;
            } else {
                break;
            }
        }
        assert_eq!(again, v);
        assert_eq!(r.idx, idx);
    }
}

#[test]
fn undo_prefix_scaling_recovers_product() {
    let table = build_unit_table();
    // Undoing the prefix (multiplying back by ten for every step the index
    // went below six, dividing for every step above) recovers magnitude
    // times factor, within floating-point tolerance.
    for (m, key, factor) in [
        (10.0, "in", 0.0254),
        (10.0, "lb", 453.59237),
        (1000000.0, "ft", 0.3048),
        (0.000001, "gt", 0.06479891),
        (0.5, "us cup", 0.24),
        (3.0, "psi", 0.0689476),
    ] {
        let (v, _, idx) = run_convert_full(m, key, &table);
        let idx = idx.expect("these kinds are all rescaled");
        let mut undone = v;
        if idx <= 6 {
            for _ in idx..6 {
                undone *= 10.0;
            }
        } else {
            for _ in 6..idx {
                undone /= 10.0;
            }
        }
        assert!(close(undone, m * factor));
    }
}

#[test]
fn acceleration_and_area_are_never_rescaled() {
    let table = build_unit_table();
    let (v, l, idx) = run_convert_full(10.0, "in/s²", &table);
    assert!(close(v, 0.254));
    assert_eq!(l, "m/s²");
    assert_eq!(idx, None);
    let (v, l, idx) = run_convert_full(10.0, "sq in", &table);
    assert!(close(v, 0.0064516));
    assert_eq!(l, "m²");
    assert_eq!(idx, None);
}

#[test]
fn pressure_rescales_through_several_steps() {
    let table = build_unit_table();
    let (v, l, idx) = run_convert_full(1000.0, "atm", &table);
    assert!(close(v, 1.01325));
    assert_eq!(l, "kbar");
    assert_eq!(idx, Some(3));
}

#[test]
fn unresolvable_unit_yields_zero_and_empty() {
    let table = build_unit_table();
    assert_eq!(run_convert(10.0, "bogus", &table), (0.0, String::new()));
    assert_eq!(run_convert(1.5, "", &table), (0.0, String::new()));
}

#[test]
fn full_pipeline_from_line() {
    let table = build_unit_table();
    let (numeric, key) = parse_input("3 nautical mile", &table);
    let value: f64 = numeric.parse().unwrap();
    let (v, l) = run_convert(value, &key, &table);
    assert!(close(v, 5.55954));
    assert_eq!(l, "km");
}
