//! Trusted boundary to the JSON parser. The module-map annotation arrives as
//! JSON text; the external parser turns it into plain values, and everything
//! that follows is verified against the names declared here.
//!
//! Each name stands for what one deterministic external call returns for a
//! given input text; nothing else is assumed of the parser.

use vstd::prelude::*;

verus! {

/// What the external JSON parser yields for a text that must be a JSON
/// object: the member list in input order, each value carried as its own
/// JSON text; or the parser's error message.
pub uninterp spec fn json_object_of(s: Seq<char>) -> Result<Seq<(Seq<char>, Seq<char>)>, Seq<char>>;

/// What the external JSON parser yields for a text that must be one JSON
/// string.
pub uninterp spec fn json_string_of(s: Seq<char>) -> Result<Seq<char>, Seq<char>>;

/// What the external JSON parser yields for a text that must be a JSON
/// string or `null`.
pub uninterp spec fn json_opt_string_of(s: Seq<char>) -> Result<Option<Seq<char>>, Seq<char>>;

/// What the external JSON parser yields for a text that must be an array of
/// JSON strings or `null`.
pub uninterp spec fn json_string_list_of(s: Seq<char>) -> Result<
    Option<Seq<Seq<char>>>,
    Seq<char>,
>;

/// Relies on `serde_json::from_str::<serde_json::Map<String, serde_json::Value>>`
/// to parse a JSON object (members kept in input order, keys unique because a
/// later duplicate key replaces the earlier member), and on
/// `serde_json::Value::to_string` to carry each member value as its JSON text.
/// Both depend on the input text alone.
#[verifier::external_body]
pub fn json_parse_object(s: &str) -> (r: Result<Vec<(String, String)>, String>)
    ensures
        match r {
            Result::Ok(v) => json_object_of(s@) is Ok && v.deep_view() == json_object_of(
                s@,
            )->Ok_0 && (forall|i: int, j: int|
                0 <= i < j < v.deep_view().len() ==> (#[trigger] v.deep_view()[i]).0 != (
                #[trigger] v.deep_view()[j]).0),
            Result::Err(e) => json_object_of(s@) is Err && e@ == json_object_of(s@)->Err_0,
        },
{
    match serde_json::from_str::<serde_json::Map<String, serde_json::Value>>(s) {
        Ok(m) => Ok(m.into_iter().map(|(k, v)| (k, v.to_string())).collect()),
        Err(e) => Err(e.to_string()),
    }
}

/// Relies on `serde_json::from_str::<String>` to parse one JSON string,
/// which depends on the input text alone.
#[verifier::external_body]
pub fn json_parse_string(s: &str) -> (r: Result<String, String>)
    ensures
        match r {
            Result::Ok(v) => json_string_of(s@) is Ok && v@ == json_string_of(s@)->Ok_0,
            Result::Err(e) => json_string_of(s@) is Err && e@ == json_string_of(s@)->Err_0,
        },
{
    match serde_json::from_str::<String>(s) {
        Ok(v) => Ok(v),
        Err(e) => Err(e.to_string()),
    }
}

/// Relies on `serde_json::from_str::<Option<String>>` to parse one JSON
/// string or `null`, which depends on the input text alone.
#[verifier::external_body]
pub fn json_parse_opt_string(s: &str) -> (r: Result<Option<String>, String>)
    ensures
        match r {
            Result::Ok(v) => json_opt_string_of(s@) is Ok && v.deep_view() == json_opt_string_of(
                s@,
            )->Ok_0,
            Result::Err(e) => json_opt_string_of(s@) is Err && e@ == json_opt_string_of(s@)->Err_0,
        },
{
    match serde_json::from_str::<Option<String>>(s) {
        Ok(v) => Ok(v),
        Err(e) => Err(e.to_string()),
    }
}

/// Relies on `serde_json::from_str::<Option<Vec<String>>>` to parse an array
/// of JSON strings or `null`, which depends on the input text alone.
#[verifier::external_body]
pub fn json_parse_string_list(s: &str) -> (r: Result<Option<Vec<String>>, String>)
    ensures
        match r {
            Result::Ok(v) => json_string_list_of(s@) is Ok && v.deep_view() == json_string_list_of(
                s@,
            )->Ok_0,
            Result::Err(e) => json_string_list_of(s@) is Err && e@ == json_string_list_of(
                s@,
            )->Err_0,
        },
{
    match serde_json::from_str::<Option<Vec<String>>>(s) {
        Ok(v) => Ok(v),
        Err(e) => Err(e.to_string()),
    }
}

} // verus!
