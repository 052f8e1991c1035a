//! The one JSON encoding step the request body needs from the outside
//! world: turning an arbitrary query string into a JSON string literal.
//! The framing of the body around it is verified code.

use vstd::prelude::*;

verus! {

/// The JSON string literal (quoted and escaped) that encodes `s`: a
/// function of `s` alone.
pub uninterp spec fn json_quoted(s: Seq<char>) -> Seq<char>;

/// Relies on `serde_json::to_string` on a string slice: it returns the
/// JSON string literal encoding the slice, and depends on the characters
/// alone. Serialization of a string never fails.
#[verifier::external_body]
pub(crate) fn json_quote(s: &str) -> (r: String)
    ensures
        r@ == json_quoted(s@),
{
    serde_json::to_string(s).unwrap_or_default()
}

} // verus!
