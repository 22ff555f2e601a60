//! An interactive unit converter's core: a table mapping unit names and
//! abbreviations to their quantity kind and conversion factor, a parser that
//! splits a line into a magnitude and a unit key, and the decision logic that
//! turns a looked-up unit into a display unit, an optional extra multiplier,
//! and a metric-prefix rescaling of the magnitude.
//!
//! Magnitudes themselves are floating-point values and are handled by the
//! surrounding program; this crate holds every decision that does not depend
//! on floating-point arithmetic, states conversion factors as exact decimals,
//! and proves the laws of the prefix-rescaling procedure over exact
//! arithmetic.

pub mod convert;
pub mod parse;
pub mod rescale;
pub mod table;
pub mod text;
pub mod units;
