//! Records that a calculation reports: formula steps, rule decisions, risks and field errors.
use vstd::prelude::*;

verus! {

/// One step of a calculation: the formula, the values put into it and its result.
#[derive(Debug, Clone, PartialEq, Eq)]
pub struct FormulaStep {
    pub label: String,
    pub formula: String,
    pub substitution: String,
    pub result: String,
    pub unit: String,
    pub source: String,
}

/// A selection rule that a calculation applied, with its recommendation and risk level.
#[derive(Debug, Clone, PartialEq, Eq)]
pub struct RuleDecision {
    pub id: String,
    pub label: String,
    pub recommendation: String,
    pub basis: String,
    pub risk: String,
    pub source: String,
}

/// A risk that a calculation reports, optionally tied to an input field.
#[derive(Debug, Clone, PartialEq, Eq)]
pub struct RiskItem {
    pub level: String,
    pub message: String,
    pub field_id: Option<String>,
    pub source: String,
}

/// A rejected input: the field it concerns and why.
#[derive(Debug, Clone, PartialEq, Eq)]
pub struct FieldError {
    pub field_id: String,
    pub message: String,
}

impl FieldError {
    /// The text a command reports for this error: the field, a full-width colon, the message.
    pub fn command_message(&self) -> (r: String)
        ensures
            r@ == self.field_id@ + "："@ + self.message@,
    {
        let mut r = self.field_id.clone();
        r.append("：");
        r.append(self.message.as_str());
        r
    }
}

} // verus!
