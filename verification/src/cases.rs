//! Saved calculation cases: name rules, list filters and record ids.
use vstd::prelude::*;

use crate::clock;
use crate::text::{
    containing_pattern, decimal_digits, decimal_string, is_trimmed, lemma_decimal_digits_injective,
    lemma_trimmed_idempotent, lemma_trimmed_is_trimmed, like_pattern, trim, trimmed,
};
use vstd::utf8::encode_utf8;

verus! {

/// Filters for listing cases; every one is optional.
#[derive(Debug, Clone, Default, PartialEq, Eq)]
pub struct CaseFilter {
    pub query: Option<String>,
    pub module_id: Option<String>,
    pub created_from: Option<String>,
    pub created_to: Option<String>,
}

/// A new name and notes for a saved case.
#[derive(Debug, Clone, PartialEq, Eq)]
pub struct UpdateCaseRequest {
    pub id: String,
    pub name: String,
    pub notes: String,
}

/// A saved case as it is listed.
#[derive(Debug, Clone, PartialEq, Eq)]
pub struct CaseRecord {
    pub id: String,
    pub name: String,
    pub module_id: String,
    pub module_name: String,
    pub notes: String,
    pub result_summary: String,
    pub risk_count: i64,
    pub created_at: String,
    pub updated_at: String,
}

/// A case name is accepted when, trimmed, it holds 1 to 100 characters.
pub open spec fn valid_case_name(name: Seq<char>) -> bool {
    1 <= trimmed(name).len() <= 100
}

/// Accepts a case name of 1 to 100 characters once trimmed; otherwise reports the rule.
pub fn validate_case_name(name: &str) -> (r: Result<(), String>)
    ensures
        r is Ok <==> valid_case_name(name@),
        r matches Err(m) ==> m@ == "案例名称必须为 1-100 个字符"@,
{
    let length: usize = trim(name).unicode_len();
    if length == 0 || length > 100 {
        return Err(String::from_str("案例名称必须为 1-100 个字符"));
    }
    Ok(())
}

/// A text filter as it is used: trimmed, and absent when nothing is left.
pub open spec fn normalized(value: Option<Seq<char>>) -> Option<Seq<char>> {
    match value {
        Some(s) => if trimmed(s).len() > 0 {
            Some(trimmed(s))
        } else {
            None
        },
        None => None,
    }
}

/// The view of an optional string slice.
pub open spec fn opt_view(value: Option<&str>) -> Option<Seq<char>> {
    match value {
        Some(s) => Some(s@),
        None => None,
    }
}

/// The view of an optional string.
pub open spec fn opt_string_view(value: Option<String>) -> Option<Seq<char>> {
    match value {
        Some(s) => Some(s@),
        None => None,
    }
}

/// The value trimmed; none when it is absent or only white space.
pub fn normalize_text(value: Option<&str>) -> (r: Option<String>)
    ensures
        opt_string_view(r) == normalized(opt_view(value)),
{
    match value {
        Some(s) => {
            let t = trim(s);
            if t.unicode_len() == 0 {
                None
            } else {
                Some(t.to_string())
            }
        },
        None => None,
    }
}

/// The suffix that makes a bare date the last second of that day.
pub open spec fn end_of_day() -> Seq<char> {
    " 23:59:59"@
}

/// The upper bound of a creation-date filter: the normalized value, where a value
/// of 10 bytes (a bare `YYYY-MM-DD` date) is extended to the end of that day.
pub open spec fn normalized_date_to(value: Option<Seq<char>>) -> Option<Seq<char>> {
    match normalized(value) {
        Some(d) => if encode_utf8(d).len() == 10 {
            Some(d + end_of_day())
        } else {
            Some(d)
        },
        None => None,
    }
}

/// The upper date bound of a case filter, extended to the end of the day for a bare date.
pub fn normalize_date_to(value: Option<&str>) -> (r: Option<String>)
    ensures
        opt_string_view(r) == normalized_date_to(opt_view(value)),
{
    match normalize_text(value) {
        Some(date) => {
            if date.as_str().as_bytes().len() == 10 {
                let mut date = date;
                date.append(" 23:59:59");
                Some(date)
            } else {
                Some(date)
            }
        },
        None => None,
    }
}

/// A record id: the prefix, a hyphen and a timestamp in nanoseconds.
pub open spec fn record_id(prefix: Seq<char>, nanos: nat) -> Seq<char> {
    prefix + "-"@ + decimal_digits(nanos)
}

/// The id `{prefix}-{nanos}`.
pub fn timestamped_id(prefix: &str, nanos: u128) -> (r: String)
    ensures
        r@ == record_id(prefix@, nanos as nat),
{
    let mut r = prefix.to_string();
    r.append("-");
    let digits = decimal_string(nanos);
    r.append(digits.as_str());
    r
}

/// A fresh record id: the prefix, a hyphen and the nanoseconds elapsed since the
/// Unix epoch (0 when the clock reads earlier than the epoch).
pub fn next_id(prefix: &str) -> (r: String)
    ensures
        exists|nanos: nat| r@ == record_id(prefix@, nanos),
{
    let nanos: u128 = match clock::since_unix_epoch(&clock::now()) {
        Ok(elapsed) => clock::as_nanos(&elapsed),
        Err(_) => 0,
    };
    let r = timestamped_id(prefix, nanos);
    assert(r@ == record_id(prefix@, nanos as nat));
    r
}

/// The name of a copy of the case named `name`.
pub open spec fn copy_name(name: Seq<char>) -> Seq<char> {
    name + " - 副本"@
}

/// The name given to a duplicate of a case.
pub fn duplicate_case_name(name: &str) -> (r: String)
    ensures
        r@ == copy_name(name@),
{
    let mut r = name.to_string();
    r.append(" - 副本");
    r
}

/// The parameters of a case listing, derived from a filter.
#[derive(Debug, Clone, PartialEq, Eq)]
pub struct CaseQuery {
    /// Matched against case name, notes and module name.
    pub like_query: Option<String>,
    pub module_id: Option<String>,
    pub created_from: Option<String>,
    pub created_to: Option<String>,
}

/// Whether `q` holds the parameters that listing with `filter` uses.
pub open spec fn is_case_query(filter: CaseFilter, q: CaseQuery) -> bool {
    &&& opt_string_view(q.like_query) == match normalized(opt_string_view(filter.query)) {
        Some(t) => Some(containing_pattern(t)),
        None => None,
    }
    &&& opt_string_view(q.module_id) == normalized(opt_string_view(filter.module_id))
    &&& opt_string_view(q.created_from) == normalized(opt_string_view(filter.created_from))
    &&& opt_string_view(q.created_to) == normalized_date_to(opt_string_view(filter.created_to))
}

fn as_opt_str(value: &Option<String>) -> (r: Option<&str>)
    ensures
        opt_view(r) == opt_string_view(*value),
{
    match value {
        Some(s) => Some(s.as_str()),
        None => None,
    }
}

/// The listing parameters for `filter`: each text normalized, the query turned
/// into a containment pattern, and the upper date extended to the end of its day.
pub fn case_query(filter: &CaseFilter) -> (r: CaseQuery)
    ensures
        is_case_query(*filter, r),
{
    let like_query = match normalize_text(as_opt_str(&filter.query)) {
        Some(t) => Some(like_pattern(t.as_str())),
        None => None,
    };
    CaseQuery {
        like_query,
        module_id: normalize_text(as_opt_str(&filter.module_id)),
        created_from: normalize_text(as_opt_str(&filter.created_from)),
        created_to: normalize_date_to(as_opt_str(&filter.created_to)),
    }
}

/// What listing with `filter` uses: each text is trimmed and dropped when blank;
/// the query is wrapped in `%` on both sides; the lower date bound is only trimmed,
/// never extended, so a bare date stays that date; the upper date bound is the
/// trimmed text, extended by " 23:59:59" exactly when it is ten bytes long.
pub proof fn lemma_case_query_parameters(filter: CaseFilter, q: CaseQuery)
    requires
        is_case_query(filter, q),
    ensures
        match filter.created_from {
            Some(s) => if trimmed(s@).len() == 0 {
                q.created_from is None
            } else {
                q.created_from matches Some(t) && t@ == trimmed(s@)
            },
            None => q.created_from is None,
        },
        match filter.module_id {
            Some(s) => if trimmed(s@).len() == 0 {
                q.module_id is None
            } else {
                q.module_id matches Some(t) && t@ == trimmed(s@)
            },
            None => q.module_id is None,
        },
        match filter.query {
            Some(s) => if trimmed(s@).len() == 0 {
                q.like_query is None
            } else {
                q.like_query matches Some(t) && t@ == "%"@ + trimmed(s@) + "%"@
            },
            None => q.like_query is None,
        },
        match filter.created_to {
            Some(s) => if trimmed(s@).len() == 0 {
                q.created_to is None
            } else if encode_utf8(trimmed(s@)).len() == 10 {
                q.created_to matches Some(t) && t@ == trimmed(s@) + " 23:59:59"@
            } else {
                q.created_to matches Some(t) && t@ == trimmed(s@)
            },
            None => q.created_to is None,
        },
{
}

/// A case is rerun only with a request for the module it was saved with.
pub fn check_rerun_module(case_module_id: &str, request_module_id: &str) -> (r: Result<(), String>)
    ensures
        r is Ok <==> case_module_id@ == request_module_id@,
        r matches Err(m) ==> m@ == "案例模块与请求模块不一致"@,
{
    if crate::text::str_eq(case_module_id, request_module_id) {
        Ok(())
    } else {
        Err(String::from_str("案例模块与请求模块不一致"))
    }
}

/// A normalized text filter is never empty and neither starts nor ends with white space.
pub proof fn lemma_normalized_is_trimmed(value: Option<Seq<char>>)
    ensures
        normalized(value) matches Some(t) ==> t.len() > 0 && is_trimmed(t),
{
    if let Some(s) = value {
        lemma_trimmed_is_trimmed(s);
    }
}

/// Normalizing a normalized filter changes nothing.
pub proof fn lemma_normalize_idempotent(value: Option<Seq<char>>)
    ensures
        normalized(normalized(value)) == normalized(value),
{
    if let Some(s) = value {
        lemma_trimmed_idempotent(s);
    }
}

/// Surrounding white space does not change whether a case name is accepted.
pub proof fn lemma_case_name_ignores_padding(name: Seq<char>)
    ensures
        valid_case_name(trimmed(name)) == valid_case_name(name),
{
    lemma_trimmed_idempotent(name);
}

/// The upper date bound is the normalized value, extended only by the end-of-day suffix.
pub proof fn lemma_date_to_extends_normalized(value: Option<Seq<char>>)
    ensures
        normalized(value) is None ==> normalized_date_to(value) is None,
        normalized(value) matches Some(t) ==> (normalized_date_to(value) == Some(t)
            || normalized_date_to(value) == Some(t + end_of_day())),
{
}

/// Ids made from distinct timestamps with the same prefix are distinct.
pub proof fn lemma_record_ids_distinct(prefix: Seq<char>, a: nat, b: nat)
    ensures
        record_id(prefix, a) == record_id(prefix, b) ==> a == b,
{
    if record_id(prefix, a) == record_id(prefix, b) {
        let p = prefix + "-"@;
        assert(record_id(prefix, a).skip(p.len() as int) =~= decimal_digits(a));
        assert(record_id(prefix, b).skip(p.len() as int) =~= decimal_digits(b));
        lemma_decimal_digits_injective(a, b);
    }
}

/// An id begins with its prefix and a hyphen.
pub proof fn lemma_record_id_prefix(prefix: Seq<char>, nanos: nat)
    ensures
        record_id(prefix, nanos).take(prefix.len() as int + 1) == prefix + "-"@,
{
    reveal_strlit("-");
    assert(record_id(prefix, nanos).take(prefix.len() as int + 1) =~= prefix + "-"@);
}

} // verus!
