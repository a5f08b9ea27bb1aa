//! JSON text, read and written by serde_json.

use vstd::prelude::*;

verus! {

#[verifier::external_type_specification]
#[verifier::external_body]
pub struct ExJsonValue(serde_json::Value);

/// Whether serde_json reads `s` as one JSON value.
pub uninterp spec fn json_text(s: Seq<char>) -> bool;

/// Relies on `serde_json::from_str::<Value>`: succeeds exactly on JSON text.
#[verifier::external_body]
pub fn parse_json(s: &str) -> (r: Result<serde_json::Value, serde_json::Error>)
    ensures
        r is Ok <==> json_text(s@),
{
    serde_json::from_str::<serde_json::Value>(s)
}

/// The text that serde_json writes, with `to_string_pretty`, for the value
/// that it reads from `s`.
pub uninterp spec fn json_pretty_text(s: Seq<char>) -> Seq<char>;

/// Relies on `serde_json::from_str::<Value>` and then `to_string_pretty`, which
/// cannot fail on a `Value`: the JSON text `s` re-indented, or `None` where `s`
/// is not JSON text.
#[verifier::external_body]
pub fn reindent_json(s: &str) -> (r: Option<String>)
    ensures
        r is Some <==> json_text(s@),
        r matches Some(p) ==> p@ == json_pretty_text(s@),
{
    serde_json::from_str::<serde_json::Value>(s).ok().and_then(|v| serde_json::to_string_pretty(&v).ok())
}

} // verus!
