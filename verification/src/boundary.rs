//! The error document returned by the collection and environment transforms
//! when their input does not parse: a JSON object holding a single `error`
//! member with the message.

use vstd::prelude::*;
use vstd::string::StringExecFns;
use crate::bodybuild::{json_quote, json_string_lit};

verus! {

/// The error-shaped document for a message: a JSON object with the single
/// member `error`, whose value is the message as a JSON string literal.
pub open spec fn error_document_spec(msg: Seq<char>) -> Seq<char> {
    "{\"error\": "@ + json_string_lit(msg) + "}"@
}

/// Builds the error-shaped document `{"error": "<msg>"}`; the message is
/// escaped as a JSON string, so the result is a well-formed object whatever
/// the message holds.
pub fn error_document(msg: &str) -> (r: String)
    ensures
        r@ == error_document_spec(msg@),
{
    let mut out = String::from_str("{\"error\": ");
    let lit = json_quote(msg);
    out.append(lit.as_str());
    out.append("}");
    out
}

} // verus!
