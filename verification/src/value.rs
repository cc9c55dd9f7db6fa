//! Leaf values: the scalars a configuration field can hold.
//!
//! Atomic third-party types take part as single-slot leaves: a decimal number
//! is carried as its mantissa and scale, fully parsed, and merges as one unit.

use core::str::FromStr;
use vstd::prelude::*;

verus! {

/// A decimal number, held as the integer mantissa and the number of decimal
/// places: the value denoted is `mantissa / 10^scale`.
#[derive(Debug, Clone, Copy, PartialEq, Eq)]
pub struct DecimalValue {
    pub mantissa: i128,
    pub scale: u32,
}

/// What parsing a decimal literal yields: `None` where the text is not a
/// decimal, else the mantissa and scale. The result depends on the characters
/// alone.
pub uninterp spec fn decimal_parse(s: Seq<char>) -> Option<(i128, u32)>;

/// Relies on `rust_decimal::Decimal::from_str`, `Decimal::mantissa` and
/// `Decimal::scale`: parsing depends on the characters alone, and the mantissa
/// and scale read back the parsed number.
#[verifier::external_body]
fn parse_decimal_str(s: &str) -> (r: Option<DecimalValue>)
    ensures
        r is Some <==> decimal_parse(s@) is Some,
        r is Some ==> (r->Some_0.mantissa, r->Some_0.scale) == decimal_parse(s@)->Some_0,
{
    match rust_decimal::Decimal::from_str(s) {
        Ok(d) => Some(DecimalValue { mantissa: d.mantissa(), scale: d.scale() }),
        Err(_) => None,
    }
}

impl DecimalValue {
    /// Parses a decimal literal such as `"1.23"`.
    pub fn parse(s: &str) -> (r: Option<DecimalValue>)
        ensures
            r is Some <==> decimal_parse(s@) is Some,
            r is Some ==> (r->Some_0.mantissa, r->Some_0.scale) == decimal_parse(s@)->Some_0,
    {
        parse_decimal_str(s)
    }
}

/// The kind of scalar a leaf field expects.
#[derive(Debug, Clone, Copy, PartialEq, Eq)]
pub enum LeafKind {
    UInt,
    Str,
    Bool,
    Decimal,
}

/// A scalar supplied for one leaf field.
#[derive(Debug, PartialEq, Eq)]
pub enum LeafValue {
    UInt(u64),
    Str(String),
    Bool(bool),
    Decimal(DecimalValue),
}

impl Clone for LeafValue {
    fn clone(&self) -> (r: Self)
        ensures
            r == *self,
    {
        match self {
            LeafValue::UInt(x) => LeafValue::UInt(*x),
            LeafValue::Str(s) => LeafValue::Str(s.clone()),
            LeafValue::Bool(b) => LeafValue::Bool(*b),
            LeafValue::Decimal(d) => LeafValue::Decimal(*d),
        }
    }
}

/// Whether a supplied scalar is of the kind a field expects.
pub open spec fn spec_kind_matches(v: LeafValue, k: LeafKind) -> bool {
    match v {
        LeafValue::UInt(_) => k is UInt,
        LeafValue::Str(_) => k is Str,
        LeafValue::Bool(_) => k is Bool,
        LeafValue::Decimal(_) => k is Decimal,
    }
}

/// Checks a supplied scalar against the kind a field expects.
pub fn kind_matches(v: &LeafValue, k: LeafKind) -> (b: bool)
    ensures
        b == spec_kind_matches(*v, k),
{
    match (v, k) {
        (LeafValue::UInt(_), LeafKind::UInt) => true,
        (LeafValue::Str(_), LeafKind::Str) => true,
        (LeafValue::Bool(_), LeafKind::Bool) => true,
        (LeafValue::Decimal(_), LeafKind::Decimal) => true,
        _ => false,
    }
}

} // verus!
