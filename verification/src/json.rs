//! What the pipeline has from `serde_json`: payloads as JSON documents.
use vstd::prelude::*;

verus! {

/// `serde_json::Value`: a JSON document, carried through as it is.
#[verifier::external_type_specification]
#[verifier::external_body]
pub struct ExValue(serde_json::Value);

/// `serde_json::Error`: why a text is no JSON document.
#[verifier::external_type_specification]
#[verifier::external_body]
pub struct ExError(serde_json::Error);

/// The document that `serde_json::from_str` reads from `text`; `None` where
/// it reads none.
pub uninterp spec fn json_document(text: Seq<char>) -> Option<serde_json::Value>;

/// Calls `serde_json::from_str` for a `serde_json::Value`.
///
/// Trusted: the call succeeds exactly on the texts that `json_document`
/// knows a document for, and then returns that document. No more is claimed
/// of what a document holds.
#[verifier::external_body]
pub(crate) fn read_document(text: &str) -> (read: Result<serde_json::Value, serde_json::Error>)
    ensures
        match read {
            Ok(document) => json_document(text@) == Some(document),
            Err(_) => json_document(text@) is None,
        },
{
    serde_json::from_str::<serde_json::Value>(text)
}

} // verus!
