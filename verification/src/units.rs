//! Choosing the conversion between two units.
//!
//! Which conversion applies is decided here; the arithmetic on the measured
//! value is done by the caller.
use vstd::prelude::*;

use crate::models::FieldError;
use crate::text::str_eq;

verus! {

/// A constant by which a value is scaled.
#[derive(Debug, Clone, Copy, PartialEq, Eq)]
pub enum ScaleFactor {
    /// 1000.
    Thousand,
    /// 60.
    Sixty,
    /// Standard gravity, 9.80665 m/s².
    StandardGravity,
}

/// How a value in one unit becomes a value in another.
#[derive(Debug, Clone, Copy, PartialEq, Eq)]
pub enum UnitConversion {
    /// The units are the same: the value is kept.
    Identity,
    /// The value is multiplied by the factor.
    Multiply(ScaleFactor),
    /// The value is divided by the factor.
    Divide(ScaleFactor),
}

/// A conversion that is not supported.
#[derive(Debug, Clone, PartialEq, Eq)]
pub enum UnitError {
    Unsupported { from: String, to: String },
}

impl UnitError {
    /// The error's text: `不支持单位换算：{from} -> {to}`.
    pub fn message(&self) -> (r: String)
        ensures
            match self {
                UnitError::Unsupported { from, to } => r@ == "不支持单位换算："@ + from@ + " -> "@
                    + to@,
            },
    {
        match self {
            UnitError::Unsupported { from, to } => {
                let mut r = String::from_str("不支持单位换算：");
                r.append(from.as_str());
                r.append(" -> ");
                r.append(to.as_str());
                r
            },
        }
    }
}

/// The conversions between distinct units that are supported, each pair in both directions.
pub open spec fn scaled_conversion(from: Seq<char>, to: Seq<char>) -> Option<UnitConversion> {
    if from == "mm"@ && to == "m"@ {
        Some(UnitConversion::Divide(ScaleFactor::Thousand))
    } else if from == "m"@ && to == "mm"@ {
        Some(UnitConversion::Multiply(ScaleFactor::Thousand))
    } else if from == "mm/s"@ && to == "m/s"@ {
        Some(UnitConversion::Divide(ScaleFactor::Thousand))
    } else if from == "m/s"@ && to == "mm/s"@ {
        Some(UnitConversion::Multiply(ScaleFactor::Thousand))
    } else if from == "min"@ && to == "s"@ {
        Some(UnitConversion::Multiply(ScaleFactor::Sixty))
    } else if from == "s"@ && to == "min"@ {
        Some(UnitConversion::Divide(ScaleFactor::Sixty))
    } else if from == "rpm"@ && to == "rps"@ {
        Some(UnitConversion::Divide(ScaleFactor::Sixty))
    } else if from == "rps"@ && to == "rpm"@ {
        Some(UnitConversion::Multiply(ScaleFactor::Sixty))
    } else if from == "kW"@ && to == "W"@ {
        Some(UnitConversion::Multiply(ScaleFactor::Thousand))
    } else if from == "W"@ && to == "kW"@ {
        Some(UnitConversion::Divide(ScaleFactor::Thousand))
    } else if from == "kg"@ && to == "N"@ {
        Some(UnitConversion::Multiply(ScaleFactor::StandardGravity))
    } else if from == "N"@ && to == "kg"@ {
        Some(UnitConversion::Divide(ScaleFactor::StandardGravity))
    } else {
        None
    }
}

/// The conversion from `from` to `to`, if there is one.
pub open spec fn conversion_between(from: Seq<char>, to: Seq<char>) -> Option<UnitConversion> {
    if from == to {
        Some(UnitConversion::Identity)
    } else {
        scaled_conversion(from, to)
    }
}

/// The conversion from `from` to `to`; an error when the pair is not supported.
pub fn conversion(from: &str, to: &str) -> (r: Result<UnitConversion, UnitError>)
    ensures
        match conversion_between(from@, to@) {
            Some(c) => r == Ok::<UnitConversion, UnitError>(c),
            None => r matches Err(UnitError::Unsupported { from: f, to: t }) && f@ == from@ && t@
                == to@,
        },
{
    if str_eq(from, to) {
        return Ok(UnitConversion::Identity);
    }
    if str_eq(from, "mm") && str_eq(to, "m") {
        Ok(UnitConversion::Divide(ScaleFactor::Thousand))
    } else if str_eq(from, "m") && str_eq(to, "mm") {
        Ok(UnitConversion::Multiply(ScaleFactor::Thousand))
    } else if str_eq(from, "mm/s") && str_eq(to, "m/s") {
        Ok(UnitConversion::Divide(ScaleFactor::Thousand))
    } else if str_eq(from, "m/s") && str_eq(to, "mm/s") {
        Ok(UnitConversion::Multiply(ScaleFactor::Thousand))
    } else if str_eq(from, "min") && str_eq(to, "s") {
        Ok(UnitConversion::Multiply(ScaleFactor::Sixty))
    } else if str_eq(from, "s") && str_eq(to, "min") {
        Ok(UnitConversion::Divide(ScaleFactor::Sixty))
    } else if str_eq(from, "rpm") && str_eq(to, "rps") {
        Ok(UnitConversion::Divide(ScaleFactor::Sixty))
    } else if str_eq(from, "rps") && str_eq(to, "rpm") {
        Ok(UnitConversion::Multiply(ScaleFactor::Sixty))
    } else if str_eq(from, "kW") && str_eq(to, "W") {
        Ok(UnitConversion::Multiply(ScaleFactor::Thousand))
    } else if str_eq(from, "W") && str_eq(to, "kW") {
        Ok(UnitConversion::Divide(ScaleFactor::Thousand))
    } else if str_eq(from, "kg") && str_eq(to, "N") {
        Ok(UnitConversion::Multiply(ScaleFactor::StandardGravity))
    } else if str_eq(from, "N") && str_eq(to, "kg") {
        Ok(UnitConversion::Divide(ScaleFactor::StandardGravity))
    } else {
        Err(UnitError::Unsupported { from: String::from_str(from), to: String::from_str(to) })
    }
}

/// The conversion for the value of input `field_id`; an unsupported pair is
/// reported as an error on that field, carrying the unit error's text.
pub fn field_conversion(from: &str, to: &str, field_id: &str) -> (r: Result<UnitConversion, FieldError>)
    ensures
        match conversion_between(from@, to@) {
            Some(c) => r == Ok::<UnitConversion, FieldError>(c),
            None => r matches Err(e) && e.field_id@ == field_id@ && e.message@
                == "不支持单位换算："@ + from@ + " -> "@ + to@,
        },
{
    match conversion(from, to) {
        Ok(c) => Ok(c),
        Err(error) => Err(FieldError { field_id: String::from_str(field_id), message: error.message() }),
    }
}

/// The inverse of a conversion: what undoes it.
pub open spec fn inverse(c: UnitConversion) -> UnitConversion {
    match c {
        UnitConversion::Identity => UnitConversion::Identity,
        UnitConversion::Multiply(k) => UnitConversion::Divide(k),
        UnitConversion::Divide(k) => UnitConversion::Multiply(k),
    }
}

/// Every unit converts to itself by keeping the value.
pub proof fn lemma_conversion_reflexive(unit: Seq<char>)
    ensures
        conversion_between(unit, unit) == Some(UnitConversion::Identity),
{
}

/// Converting there and back: a conversion is supported from `a` to `b` exactly
/// when one is supported from `b` to `a`, and the two undo each other.
pub proof fn lemma_conversion_symmetric(a: Seq<char>, b: Seq<char>)
    ensures
        conversion_between(a, b).is_some() == conversion_between(b, a).is_some(),
        conversion_between(a, b) matches Some(c) ==> conversion_between(b, a) == Some(inverse(c)),
{
    reveal_strlit("mm");
    reveal_strlit("m");
    reveal_strlit("mm/s");
    reveal_strlit("m/s");
    reveal_strlit("min");
    reveal_strlit("s");
    reveal_strlit("rpm");
    reveal_strlit("rps");
    reveal_strlit("kW");
    reveal_strlit("W");
    reveal_strlit("kg");
    reveal_strlit("N");
}

} // verus!
