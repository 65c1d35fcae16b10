//! The part-of-speech tags of a morpheme, written as one JSON array.

use vstd::prelude::*;

verus! {

/// Makes `serde_json::Error` known as a type. Nothing is said of its values.
#[verifier::external_type_specification]
#[verifier::external_body]
pub struct ExJsonError(serde_json::Error);

/// The JSON text that `serde_json::to_string` gives for a list of strings, or
/// `None` where it reports an error. It depends on the strings alone.
pub uninterp spec fn json_text(tags: Seq<Seq<char>>) -> Option<Seq<char>>;

/// Calls `serde_json::to_string` on the tags. Nothing is claimed about the
/// text beyond its being the one that `json_text` names, and nothing about
/// when the call succeeds.
#[verifier::external_body]
pub(crate) fn tags_to_json(tags: &Vec<String>) -> (json: Result<String, serde_json::Error>)
    ensures
        json matches Ok(text) ==> json_text(tags.deep_view()) == Some(text@),
        json is Err ==> json_text(tags.deep_view()) is None,
{
    serde_json::to_string(tags)
}

} // verus!
