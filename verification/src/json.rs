//! Pretty-printing of JSON text, which `serde_json` does.

use vstd::prelude::*;

verus! {

/// `serde_json::Value`, a JSON value of any shape. Nothing in it is read
/// here: it is handed from the call that reads it to the call that prints
/// it.
#[verifier::external_type_specification]
#[verifier::external_body]
pub struct ExJsonValue(serde_json::Value);

/// `serde_json::Error`, what both calls report when they fail. Nothing in
/// it is read here.
#[verifier::external_type_specification]
#[verifier::external_body]
pub struct ExJsonError(serde_json::Error);

/// The text that `serde_json::to_string_pretty` gives for a value, or
/// `None` where it reports an error.
pub uninterp spec fn rendering(value: serde_json::Value) -> Option<Seq<char>>;

/// The pretty-printed form of a JSON text: what `serde_json::from_str`
/// reads from it as a value, printed by `serde_json::to_string_pretty`.
/// `None` where the text cannot be read as JSON or its value cannot be
/// printed.
pub uninterp spec fn pretty_form(text: Seq<char>) -> Option<Seq<char>>;

/// `serde_json::from_str` for a generic value. The value that it reads
/// depends on the text alone, and so does what that value prints as; a
/// text that it refuses has no pretty form.
#[verifier::external_body]
fn from_str(text: &str) -> (parsed: Result<serde_json::Value, serde_json::Error>)
    ensures
        match parsed {
            Ok(value) => pretty_form(text@) == rendering(value),
            Err(_) => pretty_form(text@) is None,
        },
{
    serde_json::from_str::<serde_json::Value>(text)
}

/// `serde_json::to_string_pretty` for a generic value: the text that it
/// prints depends on the value alone.
#[verifier::external_body]
fn to_string_pretty(value: &serde_json::Value) -> (printed: Result<String, serde_json::Error>)
    ensures
        match printed {
            Ok(text) => rendering(*value) == Some(text@),
            Err(_) => rendering(*value) is None,
        },
{
    serde_json::to_string_pretty(value)
}

/// Reads `text` as JSON and prints it again, indented.
pub fn pretty(text: &str) -> (printed: Option<String>)
    ensures
        match printed {
            Some(p) => pretty_form(text@) == Some(p@),
            None => pretty_form(text@) is None,
        },
{
    match from_str(text) {
        Ok(value) => match to_string_pretty(&value) {
            Ok(p) => Some(p),
            Err(_) => None,
        },
        Err(_) => None,
    }
}

} // verus!
