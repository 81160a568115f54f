use vstd::prelude::*;

verus! {

#[verifier::external_type_specification]
#[verifier::external_body]
pub struct ExValue(serde_json::Value);

/// The string-valued top-level fields of a decoded JSON document: every key
/// whose value is a JSON string, mapped to that string's characters.
pub uninterp spec fn json_string_fields(v: serde_json::Value) -> Map<Seq<char>, Seq<char>>;

/// The document a piece of text decodes to: absent when the text is not
/// valid JSON, otherwise its string-valued top-level fields. Decoding
/// depends on the text alone.
pub uninterp spec fn json_document(s: Seq<char>) -> Option<Map<Seq<char>, Seq<char>>>;

/// Relies on serde_json::from_str: whether the text decodes, and to which
/// document, depends on the text alone; failure means the text is not valid
/// JSON.
#[verifier::external_body]
pub(crate) fn parse_json(s: &str) -> (r: Option<serde_json::Value>)
    ensures
        r matches Some(v) ==> json_document(s@) matches Some(m) && json_string_fields(v) == m,
        r is None ==> json_document(s@) is None,
{
    serde_json::from_str::<serde_json::Value>(s).ok()
}

/// Relies on serde_json::Value::get and Value::as_str: looks a top-level key
/// up in the document and hands its value out when that value is a string.
#[verifier::external_body]
pub(crate) fn json_string_field(v: &serde_json::Value, key: &str) -> (r: Option<String>)
    ensures
        r matches Some(s) ==> json_string_fields(*v).dom().contains(key@)
            && s@ == json_string_fields(*v)[key@],
        r is None ==> !json_string_fields(*v).dom().contains(key@),
{
    match v.get(key) {
        Some(x) => match x.as_str() {
            Some(t) => Some(t.to_owned()),
            None => None,
        },
        None => None,
    }
}

} // verus!
