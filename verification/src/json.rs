//! The JSON capability behind body validation, body formatting and
//! response pretty-printing.
//!
//! What a JSON text parses to, and what its pretty-printed form looks
//! like, is not restated here; both are functions of the text alone and
//! are given names that the contracts speak of exactly.

use vstd::prelude::*;

verus! {

/// Whether the text parses as a JSON document.
pub uninterp spec fn json_valid(s: Seq<char>) -> bool;

/// The pretty-printed form of a valid JSON text: the document it parses
/// to, re-serialized with two-space indentation.
pub uninterp spec fn json_pretty(s: Seq<char>) -> Seq<char>;

/// The parser's message for a text that is not valid JSON.
pub uninterp spec fn json_err(s: Seq<char>) -> Seq<char>;

/// Relies on `serde_json::from_str::<Value>` and
/// `serde_json::to_string_pretty`: parsing succeeds or fails, and the
/// parse error message is produced, as a function of the text alone;
/// pretty-printing a `Value` cannot fail (its maps have string keys and
/// its `Serialize` impl never errors) and writes a nonempty text that
/// parses back to the same document, so the pretty form is itself valid
/// JSON and is a fixed point of pretty-printing.
#[verifier::external_body]
pub(crate) fn json_reformat(s: &str) -> (r: Result<String, String>)
    ensures
        r is Ok <==> json_valid(s@),
        r matches Ok(p) ==> p@ == json_pretty(s@) && p@.len() > 0 && json_valid(p@)
            && json_pretty(p@) == p@,
        r matches Err(m) ==> m@ == json_err(s@),
{
    match serde_json::from_str::<serde_json::Value>(s) {
        Ok(v) => {
            let p = serde_json::to_string_pretty(&v).expect("serializing a JSON value cannot fail");
            Ok(p)
        },
        Err(e) => Err(format!("{}", e)),
    }
}

} // verus!
