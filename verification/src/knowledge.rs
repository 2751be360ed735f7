//! Knowledge-base records: entries, coverage, parameter candidates, and the JSON
//! form in which an entry's tags are stored.
use vstd::prelude::*;

use crate::cases::opt_string_view;

verus! {

/// How far a chapter of the source material is covered, with its catalog excerpt.
#[derive(Debug, Clone, PartialEq, Eq)]
pub struct CoverageRecord {
    pub id: String,
    pub chapter: String,
    pub implementation_shape: String,
    pub status: String,
    pub source_page_range: Option<String>,
    pub catalog_page: Option<String>,
    pub catalog_excerpt: String,
    pub knowledge_entry_count: i64,
    pub notes: String,
}

/// A knowledge entry found by a search.
#[derive(Debug, Clone, PartialEq, Eq)]
pub struct KnowledgeSearchRecord {
    pub id: String,
    pub title: String,
    pub content: String,
    pub page: Option<String>,
    pub tags: Vec<String>,
    pub source_title: String,
}

/// A parameter value found in the source material, awaiting review.
#[derive(Debug, Clone, PartialEq, Eq)]
pub struct ParameterCandidateRecord {
    pub id: String,
    pub name: String,
    pub value: String,
    pub unit: Option<String>,
    pub scenario: String,
    pub source_page: Option<String>,
    pub status: String,
}

/// A knowledge entry to store.
#[derive(Debug, Clone, PartialEq, Eq)]
pub struct NewKnowledgeEntry {
    pub id: String,
    pub page: Option<String>,
    pub title: String,
    pub content: String,
    pub tags: Vec<String>,
}

/// A coverage record to store.
#[derive(Debug, Clone, PartialEq, Eq)]
pub struct NewCoverageRecord {
    pub id: String,
    pub chapter: String,
    pub implementation_shape: String,
    pub status: String,
    pub source_page_range: Option<String>,
    pub notes: String,
}

/// A catalog item of the source material to store.
#[derive(Debug, Clone, PartialEq, Eq)]
pub struct NewCatalogItem {
    pub id: String,
    pub chapter: String,
    pub catalog_page: Option<String>,
    pub matched_pages: Option<String>,
    pub excerpt: String,
}

/// A parameter candidate to store.
#[derive(Debug, Clone, PartialEq, Eq)]
pub struct NewParameterCandidate {
    pub id: String,
    pub name: String,
    pub value: String,
    pub unit: Option<String>,
    pub scenario: String,
    pub source_page: Option<String>,
}

/// A confirmed parameter as it is stored among the internal parameters.
#[derive(Debug, Clone, PartialEq, Eq)]
pub struct ConfirmedParameter {
    pub id: String,
    pub name: String,
    pub category: String,
    pub value: String,
    pub unit: Option<String>,
    pub scenario: String,
    pub source: String,
}

/// The characters of each string.
pub open spec fn string_views(items: Seq<String>) -> Seq<Seq<char>> {
    items.map_values(|s: String| s@)
}

/// Whether `p` is the stored form of the confirmed candidate `c`: its id prefixed
/// with `parameter-`, the category of PDF candidates, and the candidate's page as
/// source, or the root PDF when it has none.
pub open spec fn is_confirmed_parameter(c: ParameterCandidateRecord, p: ConfirmedParameter) -> bool {
    &&& p.id@ == "parameter-"@ + c.id@
    &&& p.name@ == c.name@
    &&& p.category@ == "PDF 候选参数"@
    &&& p.value@ == c.value@
    &&& opt_string_view(p.unit) == opt_string_view(c.unit)
    &&& p.scenario@ == c.scenario@
    &&& p.source@ == match c.source_page {
        Some(page) => page@,
        None => "根目录 PDF"@,
    }
}

/// The internal parameter that confirming `candidate` stores.
pub fn confirmed_parameter(candidate: &ParameterCandidateRecord) -> (r: ConfirmedParameter)
    ensures
        is_confirmed_parameter(*candidate, r),
{
    let mut id = String::from_str("parameter-");
    id.append(candidate.id.as_str());
    let source = match &candidate.source_page {
        Some(page) => page.clone(),
        None => String::from_str("根目录 PDF"),
    };
    ConfirmedParameter {
        id,
        name: candidate.name.clone(),
        category: String::from_str("PDF 候选参数"),
        value: candidate.value.clone(),
        unit: candidate.unit.clone(),
        scenario: candidate.scenario.clone(),
        source,
    }
}

/// Confirming a candidate keeps what it says of the parameter: its name, value,
/// unit and scenario are stored unchanged, its id is prefixed with `parameter-`, and
/// its page is the source, or the root PDF when it has none.
pub proof fn lemma_confirmed_parameter_keeps_candidate(c: ParameterCandidateRecord, p: ConfirmedParameter)
    requires
        is_confirmed_parameter(c, p),
    ensures
        p.name@ == c.name@,
        p.value@ == c.value@,
        p.scenario@ == c.scenario@,
        p.unit is Some <==> c.unit is Some,
        c.unit matches Some(u) ==> p.unit matches Some(v) && v@ == u@,
        p.id@ == "parameter-"@ + c.id@,
        c.source_page matches Some(page) ==> p.source@ == page@,
        c.source_page is None ==> p.source@ == "根目录 PDF"@,
{
}

/// Distinct candidates are stored as distinct parameters.
pub proof fn lemma_confirmed_parameter_ids_distinct(
    c1: ParameterCandidateRecord,
    p1: ConfirmedParameter,
    c2: ParameterCandidateRecord,
    p2: ConfirmedParameter,
)
    requires
        is_confirmed_parameter(c1, p1),
        is_confirmed_parameter(c2, p2),
        c1.id@ != c2.id@,
    ensures
        p1.id@ != p2.id@,
{
    let prefix = "parameter-"@;
    if p1.id@ == p2.id@ {
        assert(p1.id@.skip(prefix.len() as int) =~= c1.id@);
        assert(p2.id@.skip(prefix.len() as int) =~= c2.id@);
    }
}

#[verifier::external_type_specification]
#[verifier::external_body]
pub struct ExJsonError(serde_json::Error);

/// The JSON array of strings that `serde_json::to_string` writes for `items`.
pub uninterp spec fn json_of_strings(items: Seq<Seq<char>>) -> Seq<char>;

/// The strings that `serde_json::from_str::<Vec<String>>` reads from `text`;
/// none when `text` is not a JSON array of strings.
pub uninterp spec fn strings_of_json(text: Seq<char>) -> Option<Seq<Seq<char>>>;

/// Calls `serde_json::to_string` on a list of strings. It succeeds: its
/// documentation lets serialization fail only where a `Serialize` impl decides to
/// fail or a map has non-string keys, neither of which a list of strings has, and
/// the writer it fills is a `Vec<u8>`, to which writing does not fail. What it
/// writes is named `json_of_strings`; reading that text back with
/// `serde_json::from_str` gives the same strings, as JSON string escaping is lossless.
#[verifier::external_body]
fn encode_string_list(items: &Vec<String>) -> (r: Result<String, serde_json::Error>)
    ensures
        r is Ok,
        r matches Ok(text) ==> text@ == json_of_strings(string_views(items@)) && strings_of_json(
            text@,
        ) == Some(string_views(items@)),
{
    serde_json::to_string(items)
}

/// Calls `serde_json::from_str::<Vec<String>>`: the strings of a JSON array, or an
/// error when `text` is not one; named `strings_of_json`.
#[verifier::external_body]
fn decode_string_list(text: &str) -> (r: Result<Vec<String>, serde_json::Error>)
    ensures
        r is Ok == strings_of_json(text@) is Some,
        r matches Ok(items) ==> string_views(items@) == strings_of_json(text@).unwrap(),
{
    serde_json::from_str::<Vec<String>>(text)
}

/// Calls `serde_json::Error`'s `to_string`: the error's description. Nothing is
/// stated of the text.
#[verifier::external_body]
fn json_error_text(error: &serde_json::Error) -> String {
    error.to_string()
}

/// A JSON encoding or decoding failure, with the encoder's description.
#[derive(Debug, Clone, PartialEq, Eq)]
pub struct JsonError {
    pub message: String,
}

/// The JSON text in which an entry's tags are stored; encoding a list of strings
/// does not fail.
pub fn tags_json(tags: &Vec<String>) -> (r: Result<String, JsonError>)
    ensures
        r is Ok,
        r matches Ok(text) ==> text@ == json_of_strings(string_views(tags@)) && strings_of_json(
            text@,
        ) == Some(string_views(tags@)),
{
    match encode_string_list(tags) {
        Ok(text) => Ok(text),
        Err(error) => Err(JsonError { message: json_error_text(&error) }),
    }
}

/// The tags stored as `text`; none when the text is not a JSON array of strings.
pub fn tags_from_json(text: &str) -> (r: Vec<String>)
    ensures
        string_views(r@) == match strings_of_json(text@) {
            Some(tags) => tags,
            None => Seq::<Seq<char>>::empty(),
        },
{
    match decode_string_list(text) {
        Ok(tags) => tags,
        Err(_) => Vec::new(),
    }
}

/// Tags written by `tags_json` are read back unchanged by `tags_from_json`.
pub proof fn lemma_tags_round_trip(tags: Seq<Seq<char>>, text: Seq<char>)
    requires
        text == json_of_strings(tags),
        strings_of_json(text) == Some(tags),
    ensures
        match strings_of_json(text) {
            Some(read) => read,
            None => Seq::<Seq<char>>::empty(),
        } == tags,
{
}

} // verus!
