//! Building blocks shared by the calculation modules.
use vstd::prelude::*;

use crate::models::{FieldError, RiskItem, RuleDecision};

verus! {

broadcast use vstd::string::group_string_axioms;

/// A rule decision with the given texts.
pub fn rule(
    id: &str,
    label: &str,
    recommendation: String,
    basis: String,
    risk: &str,
    source: &str,
) -> (r: RuleDecision)
    ensures
        r.id@ == id@,
        r.label@ == label@,
        r.recommendation == recommendation,
        r.basis == basis,
        r.risk@ == risk@,
        r.source@ == source@,
{
    RuleDecision {
        id: id.to_string(),
        label: label.to_string(),
        recommendation,
        basis,
        risk: risk.to_string(),
        source: source.to_string(),
    }
}

/// A risk item with the given texts.
pub fn risk(level: &str, message: &str, field_id: Option<&str>, source: &str) -> (r: RiskItem)
    ensures
        r.level@ == level@,
        r.message@ == message@,
        r.field_id.is_some() == field_id.is_some(),
        field_id.is_some() ==> r.field_id.unwrap()@ == field_id.unwrap()@,
        r.source@ == source@,
{
    let field_id = match field_id {
        Some(id) => Some(id.to_string()),
        None => None,
    };
    RiskItem { level: level.to_string(), message: message.to_string(), field_id, source: source.to_string() }
}

/// An error on `field_id` with `message`.
pub fn field_error<T>(field_id: &str, message: &str) -> (r: Result<T, FieldError>)
    ensures
        r matches Err(e) && e.field_id@ == field_id@ && e.message@ == message@,
{
    Err(FieldError { field_id: field_id.to_string(), message: message.to_string() })
}

/// The risk recorded when a calculation found none.
pub open spec fn is_success_risk(r: RiskItem, source: Seq<char>) -> bool {
    &&& r.level@ == "success"@
    &&& r.message@ == "未发现基础计算风险。"@
    &&& r.field_id.is_none()
    &&& r.source@ == source
}

/// The risks a result reports: those found, or a single success note when none was found.
pub fn result_risks(risks: Vec<RiskItem>, source_page: &str) -> (r: Vec<RiskItem>)
    ensures
        r@.len() >= 1,
        risks@.len() > 0 ==> r@ == risks@,
        risks@.len() == 0 ==> r@.len() == 1 && is_success_risk(r@[0], source_page@),
{
    let mut risks = risks;
    if risks.len() == 0 {
        risks.push(risk("success", "未发现基础计算风险。", None, source_page));
    }
    risks
}

/// The unit in which one input field of a request was given.
#[derive(Debug, Clone, PartialEq, Eq)]
pub struct FieldUnit {
    pub id: String,
    pub unit: String,
}

/// The unit given for `id`: that of the last field with this id, as a map built
/// from the fields in order keeps it.
pub open spec fn unit_of(fields: Seq<FieldUnit>, id: Seq<char>) -> Option<Seq<char>>
    decreases fields.len(),
{
    if fields.len() == 0 {
        None
    } else if fields.last().id@ == id {
        Some(fields.last().unit@)
    } else {
        unit_of(fields.drop_last(), id)
    }
}

proof fn lemma_unit_of_prefix(fields: Seq<FieldUnit>, id: Seq<char>, i: int)
    requires
        0 <= i <= fields.len(),
        forall|k: int| i <= k < fields.len() ==> (#[trigger] fields[k]).id@ != id,
    ensures
        unit_of(fields, id) == unit_of(fields.take(i), id),
    decreases fields.len() - i,
{
    if i == fields.len() {
        assert(fields.take(i) =~= fields);
    } else {
        let t = fields.drop_last();
        assert forall|k: int| i <= k < t.len() implies (#[trigger] t[k]).id@ != id by {
            assert(t[k] == fields[k]);
        }
        lemma_unit_of_prefix(t, id, i);
        assert(t.take(i) =~= fields.take(i));
    }
}

/// The unit of the input `field_id`; an error on that field when it was not given.
pub fn unit<'a>(fields: &'a Vec<FieldUnit>, field_id: &str) -> (r: Result<&'a str, FieldError>)
    ensures
        match unit_of(fields@, field_id@) {
            Some(u) => r matches Ok(s) && s@ == u,
            None => r matches Err(e) && e.field_id@ == field_id@ && e.message@ == "字段单位不能为空"@,
        },
{
    let mut i: usize = fields.len();
    while i > 0
        invariant
            i <= fields@.len(),
            forall|k: int| i <= k < fields@.len() ==> (#[trigger] fields@[k]).id@ != field_id@,
        decreases i,
    {
        if crate::text::str_eq(fields[i - 1].id.as_str(), field_id) {
            proof {
                lemma_unit_of_prefix(fields@, field_id@, i as int);
                assert(fields@.take(i as int).last() == fields@[i - 1]);
            }
            return Ok(fields[i - 1].unit.as_str());
        }
        i = i - 1;
    }
    proof {
        lemma_unit_of_prefix(fields@, field_id@, 0);
    }
    field_error(field_id, "字段单位不能为空")
}

} // verus!
