use vstd::prelude::*;
use vstd::string::StringExecFns;
use crate::text::str_eq;
use crate::units::{Factor, QuantityKind, UnitInfo};

verus! {

/// The mathematical model of one table row: two accepted spellings (a full
/// name and an abbreviation) for one unit, and what the table records for
/// them.
pub ghost struct RowModel {
    pub name: Seq<char>,
    pub abbr: Seq<char>,
    pub info: UnitInfo,
}

/// Abbreviation for writing down one row of the table model.
pub open spec fn row(
    name: Seq<char>,
    abbr: Seq<char>,
    kind: QuantityKind,
    mantissa: u64,
    exp10: u32,
) -> RowModel {
    RowModel {
        name: name,
        abbr: abbr,
        info: UnitInfo { kind: kind, factor: Factor { mantissa: mantissa, exp10: exp10 } },
    }
}

/// One stored table row.
pub struct UnitRow {
    pub name: String,
    pub abbr: String,
    pub info: UnitInfo,
}

impl View for UnitRow {
    type V = RowModel;

    open spec fn view(&self) -> RowModel {
        RowModel { name: self.name@, abbr: self.abbr@, info: self.info }
    }
}

/// The models of a sequence of stored rows.
pub open spec fn models(rows: Seq<UnitRow>) -> Seq<RowModel> {
    Seq::new(rows.len(), |i: int| rows[i]@)
}

/// Length units, factors into meters.
pub open spec fn length_rows() -> Seq<RowModel> {
    seq![
        row("inch"@, "in"@, QuantityKind::Length, 254, 4),
        row("foot"@, "ft"@, QuantityKind::Length, 3048, 4),
        row("yard"@, "yd"@, QuantityKind::Length, 9144, 4),
        row("mile"@, "mi"@, QuantityKind::Length, 1609344, 3),
        row("fathom"@, "ftm"@, QuantityKind::Length, 18288, 4),
        row("cable length"@, "cbl"@, QuantityKind::Length, 1852, 1),
        row("nautical mile"@, "nmi"@, QuantityKind::Length, 185318, 2),
    ]
}

/// Mass units, factors into grams.
pub open spec fn mass_rows() -> Seq<RowModel> {
    seq![
        row("pound"@, "lb"@, QuantityKind::Mass, 45359237, 5),
        row("ounce"@, "oz"@, QuantityKind::Mass, 2834952, 5),
        row("grain"@, "gt"@, QuantityKind::Mass, 6479891, 8),
        row("dram"@, "dr"@, QuantityKind::Mass, 177184, 5),
        row("stone"@, "st"@, QuantityKind::Mass, 635029, 2),
        row("quarter"@, "qr"@, QuantityKind::Mass, 1270058, 2),
        row("hundredweight"@, "cwt"@, QuantityKind::Mass, 5080235, 2),
        row("ton"@, "t"@, QuantityKind::Mass, 1016050, 0),
    ]
}

/// Pressure units, factors into bars.
pub open spec fn pressure_rows() -> Seq<RowModel> {
    seq![
        row("pounds per square inch"@, "psi"@, QuantityKind::Pressure, 689476, 7),
        row("feet of water"@, "ftH2O"@, QuantityKind::Pressure, 304808, 7),
        row("atmospheres"@, "atm"@, QuantityKind::Pressure, 101325, 5),
        row("pounds per square foot"@, "psf"@, QuantityKind::Pressure, 208854, 7),
    ]
}

/// Velocity units, factors into meters per second.
pub open spec fn velocity_rows() -> Seq<RowModel> {
    seq![
        row("feet per second"@, "ft/s"@, QuantityKind::Velocity, 3048, 4),
        row("miles per hour"@, "mph"@, QuantityKind::Velocity, 44704, 5),
        row("knots"@, "kn"@, QuantityKind::Velocity, 51444, 5),
    ]
}

/// Acceleration units, factors into meters per second squared.
pub open spec fn acceleration_rows() -> Seq<RowModel> {
    seq![
        row("feet per second squared"@, "ft/s²"@, QuantityKind::Acceleration, 3048, 4),
        row("miles per hour per second"@, "mph/s"@, QuantityKind::Acceleration, 44704, 5),
        row("inches per second squared"@, "in/s²"@, QuantityKind::Acceleration, 254, 4),
    ]
}

/// Fuel economy, the one inverse relation: L/100km = factor / magnitude.
pub open spec fn mileage_rows() -> Seq<RowModel> {
    seq![row("miles per gallon"@, "mpg"@, QuantityKind::Mileage, 23521458329475, 11)]
}

/// Volume units, factors into liters.
pub open spec fn volume_rows() -> Seq<RowModel> {
    seq![
        row("cubic inch"@, "in³"@, QuantityKind::Volume, 163871, 7),
        row("cubic foot"@, "ft³"@, QuantityKind::Volume, 283168, 4),
        row("us fluid ounce"@, "us fl oz"@, QuantityKind::Volume, 295735, 7),
        row("us gallon"@, "us gal"@, QuantityKind::Volume, 378541, 5),
        row("uk fluid ounce"@, "uk fl oz"@, QuantityKind::Volume, 284131, 7),
        row("uk gallon"@, "uk gal"@, QuantityKind::Volume, 454609, 5),
        row("us pint"@, "us pt"@, QuantityKind::Volume, 473176, 6),
        row("us quart"@, "us qt"@, QuantityKind::Volume, 946353, 6),
        row("uk pint"@, "uk pt"@, QuantityKind::Volume, 568261, 6),
        row("uk quart"@, "uk qt"@, QuantityKind::Volume, 113652, 5),
        row("us cup"@, "us cup"@, QuantityKind::Volume, 24, 2),
        row("us fluid drams"@, "us fl dr"@, QuantityKind::Volume, 369669, 8),
    ]
}

/// Area units. The source data assigns all five entries the square-inch
/// factor; that is preserved as literal behaviour.
pub open spec fn area_rows() -> Seq<RowModel> {
    seq![
        row("square inch"@, "sq in"@, QuantityKind::Area, 64516, 8),
        row("square foot"@, "sq ft"@, QuantityKind::Area, 64516, 8),
        row("square yard"@, "sq yd"@, QuantityKind::Area, 64516, 8),
        row("acre"@, "ac²"@, QuantityKind::Area, 64516, 8),
        row("square mile"@, "sq mi"@, QuantityKind::Area, 64516, 8),
    ]
}

/// The whole table model, in insertion order.
pub open spec fn table_model() -> Seq<RowModel> {
    length_rows() + mass_rows() + pressure_rows() + velocity_rows() + acceleration_rows()
        + mileage_rows() + volume_rows() + area_rows()
}

/// Exact-match lookup of a unit name among the rows: the first row whose
/// full name or abbreviation equals the queried string, if any.
pub open spec fn lookup_model(rows: Seq<RowModel>, name: Seq<char>) -> Option<UnitInfo>
    decreases rows.len(),
{
    if rows.len() == 0 {
        None
    } else if rows[0].name == name || rows[0].abbr == name {
        Some(rows[0].info)
    } else {
        lookup_model(rows.drop_first(), name)
    }
}

/// Every conversion factor the table holds is strictly positive.
pub proof fn lemma_table_factors_positive()
    ensures
        forall|i: int|
            0 <= i < table_model().len() ==> (#[trigger] table_model()[i]).info.factor.wf(),
{
    assert forall|i: int|
        0 <= i < table_model().len() implies (#[trigger] table_model()[i]).info.factor.wf() by {
        assert(table_model().len() == 43);
    }
}

/// Every quantity kind has at least one entry in the table.
pub proof fn lemma_every_kind_has_entry(kind: QuantityKind)
    ensures
        exists|i: int|
            0 <= i < table_model().len() && (#[trigger] table_model()[i]).info.kind == kind,
{
    match kind {
        QuantityKind::Length => {
            assert(table_model()[0].info.kind == kind);
        },
        QuantityKind::Mass => {
            assert(table_model()[7].info.kind == kind);
        },
        QuantityKind::Pressure => {
            assert(table_model()[15].info.kind == kind);
        },
        QuantityKind::Velocity => {
            assert(table_model()[19].info.kind == kind);
        },
        QuantityKind::Acceleration => {
            assert(table_model()[22].info.kind == kind);
        },
        QuantityKind::Mileage => {
            assert(table_model()[25].info.kind == kind);
        },
        QuantityKind::Volume => {
            assert(table_model()[26].info.kind == kind);
        },
        QuantityKind::Area => {
            assert(table_model()[38].info.kind == kind);
        },
    }
}

/// The immutable unit table, built once at startup and read-only afterward.
pub struct UnitTable {
    rows: Vec<UnitRow>,
}

impl View for UnitTable {
    type V = Seq<RowModel>;

    closed spec fn view(&self) -> Seq<RowModel> {
        models(self.rows@)
    }
}

impl UnitTable {
    /// Exact-match lookup: fuzzy resolution happens in the parser, never here.
    pub fn lookup(&self, name: &str) -> (r: Option<UnitInfo>)
        ensures
            r == lookup_model(self@, name@),
    {
        let ghost all = self@;
        proof {
            assert(all.skip(0) =~= all);
        }
        let mut i: usize = 0;
        while i < self.rows.len()
            invariant
                i <= self.rows@.len(),
                all == models(self.rows@),
                lookup_model(all, name@) == lookup_model(all.skip(i as int), name@),
            decreases self.rows@.len() - i,
        {
            let r = &self.rows[i];
            if str_eq(r.name.as_str(), name) || str_eq(r.abbr.as_str(), name) {
                proof {
                    assert(all.skip(i as int)[0] == all[i as int]);
                }
                return Some(r.info);
            }
            proof {
                assert(all.skip(i as int)[0] == all[i as int]);
                assert(all.skip(i as int).drop_first() =~= all.skip(i as int + 1));
            }
            i = i + 1;
        }
        proof {
            assert(all.skip(i as int) =~= Seq::<RowModel>::empty());
        }
        None
    }

    /// Whether a unit name resolves by exact match.
    pub fn contains(&self, name: &str) -> (r: bool)
        ensures
            r == lookup_model(self@, name@) is Some,
    {
        self.lookup(name).is_some()
    }
}

/// Appends one stored row built from the given spellings, kind and factor.
fn push_row(
    rows: &mut Vec<UnitRow>,
    name: &str,
    abbr: &str,
    kind: QuantityKind,
    mantissa: u64,
    exp10: u32,
)
    ensures
        models(final(rows)@) == models(old(rows)@).push(
            row(name@, abbr@, kind, mantissa, exp10),
        ),
{
    let entry = UnitRow {
        name: String::from_str(name),
        abbr: String::from_str(abbr),
        info: UnitInfo { kind, factor: Factor { mantissa, exp10 } },
    };
    rows.push(entry);
    proof {
        assert(models(rows@) =~= models(old(rows)@).push(row(name@, abbr@, kind, mantissa, exp10)));
    }
}

/// Builds the table: every accepted name and abbreviation with its kind and
/// exact decimal factor, in the fixed source order.
pub fn build_unit_table() -> (t: UnitTable)
    ensures
        t@ == table_model(),
{
    let mut rows: Vec<UnitRow> = Vec::new();
    push_row(&mut rows, "inch", "in", QuantityKind::Length, 254, 4);
    push_row(&mut rows, "foot", "ft", QuantityKind::Length, 3048, 4);
    push_row(&mut rows, "yard", "yd", QuantityKind::Length, 9144, 4);
    push_row(&mut rows, "mile", "mi", QuantityKind::Length, 1609344, 3);
    push_row(&mut rows, "fathom", "ftm", QuantityKind::Length, 18288, 4);
    push_row(&mut rows, "cable length", "cbl", QuantityKind::Length, 1852, 1);
    push_row(&mut rows, "nautical mile", "nmi", QuantityKind::Length, 185318, 2);
    push_row(&mut rows, "pound", "lb", QuantityKind::Mass, 45359237, 5);
    push_row(&mut rows, "ounce", "oz", QuantityKind::Mass, 2834952, 5);
    push_row(&mut rows, "grain", "gt", QuantityKind::Mass, 6479891, 8);
    push_row(&mut rows, "dram", "dr", QuantityKind::Mass, 177184, 5);
    push_row(&mut rows, "stone", "st", QuantityKind::Mass, 635029, 2);
    push_row(&mut rows, "quarter", "qr", QuantityKind::Mass, 1270058, 2);
    push_row(&mut rows, "hundredweight", "cwt", QuantityKind::Mass, 5080235, 2);
    push_row(&mut rows, "ton", "t", QuantityKind::Mass, 1016050, 0);
    push_row(&mut rows, "pounds per square inch", "psi", QuantityKind::Pressure, 689476, 7);
    push_row(&mut rows, "feet of water", "ftH2O", QuantityKind::Pressure, 304808, 7);
    push_row(&mut rows, "atmospheres", "atm", QuantityKind::Pressure, 101325, 5);
    push_row(&mut rows, "pounds per square foot", "psf", QuantityKind::Pressure, 208854, 7);
    push_row(&mut rows, "feet per second", "ft/s", QuantityKind::Velocity, 3048, 4);
    push_row(&mut rows, "miles per hour", "mph", QuantityKind::Velocity, 44704, 5);
    push_row(&mut rows, "knots", "kn", QuantityKind::Velocity, 51444, 5);
    push_row(&mut rows, "feet per second squared", "ft/s²", QuantityKind::Acceleration, 3048, 4);
    push_row(&mut rows, "miles per hour per second", "mph/s", QuantityKind::Acceleration, 44704, 5);
    push_row(&mut rows, "inches per second squared", "in/s²", QuantityKind::Acceleration, 254, 4);
    push_row(&mut rows, "miles per gallon", "mpg", QuantityKind::Mileage, 23521458329475, 11);
    push_row(&mut rows, "cubic inch", "in³", QuantityKind::Volume, 163871, 7);
    push_row(&mut rows, "cubic foot", "ft³", QuantityKind::Volume, 283168, 4);
    push_row(&mut rows, "us fluid ounce", "us fl oz", QuantityKind::Volume, 295735, 7);
    push_row(&mut rows, "us gallon", "us gal", QuantityKind::Volume, 378541, 5);
    push_row(&mut rows, "uk fluid ounce", "uk fl oz", QuantityKind::Volume, 284131, 7);
    push_row(&mut rows, "uk gallon", "uk gal", QuantityKind::Volume, 454609, 5);
    push_row(&mut rows, "us pint", "us pt", QuantityKind::Volume, 473176, 6);
    push_row(&mut rows, "us quart", "us qt", QuantityKind::Volume, 946353, 6);
    push_row(&mut rows, "uk pint", "uk pt", QuantityKind::Volume, 568261, 6);
    push_row(&mut rows, "uk quart", "uk qt", QuantityKind::Volume, 113652, 5);
    push_row(&mut rows, "us cup", "us cup", QuantityKind::Volume, 24, 2);
    push_row(&mut rows, "us fluid drams", "us fl dr", QuantityKind::Volume, 369669, 8);
    push_row(&mut rows, "square inch", "sq in", QuantityKind::Area, 64516, 8);
    push_row(&mut rows, "square foot", "sq ft", QuantityKind::Area, 64516, 8);
    push_row(&mut rows, "square yard", "sq yd", QuantityKind::Area, 64516, 8);
    push_row(&mut rows, "acre", "ac²", QuantityKind::Area, 64516, 8);
    push_row(&mut rows, "square mile", "sq mi", QuantityKind::Area, 64516, 8);
    proof {
        assert(models(rows@) =~= table_model());
    }
    UnitTable { rows }
}

} // verus!
