//! The user's safety factor: when it is accepted, and when it is flagged as low.
//!
//! The comparisons on the factor's value are made by the caller, which passes
//! their outcome here.
use vstd::prelude::*;

use crate::common;
use crate::models::{FieldError, RiskItem};

verus! {

/// What the request holds as safety factor.
#[derive(Debug, Clone, Copy, PartialEq, Eq)]
pub enum SafetyFactorInput {
    /// No value was given.
    Missing,
    /// A value of zero or less was given.
    NotPositive,
    /// A value greater than zero was given.
    Positive,
}

/// The error that `validate` reports, if any, on an input in the given state.
pub open spec fn safety_factor_rejection(input: SafetyFactorInput, confirmed: bool) -> Option<Seq<char>> {
    if !confirmed {
        Some("安全系数必须由用户手动输入或确认"@)
    } else {
        match input {
            SafetyFactorInput::Missing => Some("安全系数不能为空"@),
            SafetyFactorInput::NotPositive => Some("安全系数必须大于 0"@),
            SafetyFactorInput::Positive => None,
        }
    }
}

/// Accepts a safety factor only when the user confirmed it and it is a positive value;
/// otherwise reports why, on the field `safetyFactor`. An unconfirmed factor is
/// reported first, whatever its value.
pub fn validate(input: SafetyFactorInput, confirmed: bool) -> (r: Result<(), FieldError>)
    ensures
        r is Ok <==> confirmed && input == SafetyFactorInput::Positive,
        match safety_factor_rejection(input, confirmed) {
            None => r is Ok,
            Some(m) => r matches Err(e) && e.field_id@ == "safetyFactor"@ && e.message@ == m,
        },
{
    if !confirmed {
        return common::field_error("safetyFactor", "安全系数必须由用户手动输入或确认");
    }
    match input {
        SafetyFactorInput::Missing => common::field_error("safetyFactor", "安全系数不能为空"),
        SafetyFactorInput::NotPositive => common::field_error("safetyFactor", "安全系数必须大于 0"),
        SafetyFactorInput::Positive => Ok(()),
    }
}

/// A safety factor is accepted exactly when the user confirmed it and it is positive;
/// an unconfirmed factor is refused for want of confirmation whatever its value, and
/// a confirmed one that is missing or not positive is refused for that.
pub proof fn lemma_safety_factor_accepted_only_confirmed_and_positive(
    input: SafetyFactorInput,
    confirmed: bool,
)
    ensures
        safety_factor_rejection(input, confirmed) is None <==> confirmed && input
            == SafetyFactorInput::Positive,
        !confirmed ==> safety_factor_rejection(input, confirmed) == Some(
            "安全系数必须由用户手动输入或确认"@,
        ),
        confirmed && input == SafetyFactorInput::Missing ==> safety_factor_rejection(input, confirmed)
            == Some("安全系数不能为空"@),
        confirmed && input == SafetyFactorInput::NotPositive ==> safety_factor_rejection(
            input,
            confirmed,
        ) == Some("安全系数必须大于 0"@),
{
}

/// The warning recorded when the safety factor is below 1.2 (`below_recommended`),
/// none otherwise.
pub fn risk(below_recommended: bool, source: &str) -> (r: Option<RiskItem>)
    ensures
        r.is_some() == below_recommended,
        r matches Some(item) ==> {
            &&& item.level@ == "warning"@
            &&& item.message@ == "安全系数低于 1.2，建议复核冲击、偏载和启停工况。"@
            &&& item.field_id matches Some(f) && f@ == "safetyFactor"@
            &&& item.source@ == source@
        },
{
    if below_recommended {
        Some(
            common::risk(
                "warning",
                "安全系数低于 1.2，建议复核冲击、偏载和启停工况。",
                Some("safetyFactor"),
                source,
            ),
        )
    } else {
        None
    }
}

} // verus!
