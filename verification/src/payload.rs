//! Serialized payloads for the consumer's event sink.
//!
//! Every change event is forwarded as one payload: the JSON array of its
//! affected paths, or, for an error event, an error-shaped object carrying
//! the detail text.

use vstd::prelude::*;
use vstd::string::*;
use crate::event::{ChangeEvent, ChangeKind};

verus! {

/// The JSON array text that serializing these strings, in order, produces.
pub uninterp spec fn json_of_strings(items: Seq<Seq<char>>) -> Seq<char>;

/// Relies on serde_json::to_string for `Vec<String>`: on success the result
/// is the JSON array text for exactly the given strings, in order; with no
/// strings at all, its serializer writes just the empty array.
#[verifier::external_body]
fn strings_to_json(v: &Vec<String>) -> (r: Option<String>)
    ensures
        r matches Some(s) ==> s@ == json_of_strings(v@.map_values(|x: String| x@)),
        v@.len() == 0 ==> (r matches Some(s) ==> s@ == "[]"@),
{
    serde_json::to_string(v).ok()
}

/// The error-shaped payload for a detail text: the detail between a fixed
/// opening frame and a fixed closing frame.
pub open spec fn error_json(detail: Seq<char>) -> Seq<char> {
    "{\"error\":\""@ + detail + "\"}"@
}

/// Builds [`error_json`] for the given detail.
fn error_payload(detail: &str) -> (r: String)
    ensures
        r@ == error_json(detail@),
{
    let mut s = String::from_str("{\"error\":\"");
    s.append(detail);
    s.append("\"}");
    s
}

/// Serializes one change event into the payload handed to the sink: an
/// error event becomes the error-shaped object carrying its detail, any
/// other event becomes the JSON array of its affected paths (the empty
/// array where serialization is refused).
pub fn payload_for(e: &ChangeEvent) -> (r: String)
    requires
        e.wf(),
    ensures
        e.kind is Error ==> r@ == error_json(e.error_detail.unwrap()@),
        !(e.kind is Error) ==> r@ == json_of_strings(e.affected_paths@.map_values(|x: String| x@))
            || r@ == "[]"@,
        !(e.kind is Error) && e.affected_paths@.len() == 0 ==> r@ == "[]"@,
{
    match &e.error_detail {
        Some(d) => error_payload(d.as_str()),
        None => match strings_to_json(&e.affected_paths) {
            Some(s) => s,
            None => String::from_str("[]"),
        },
    }
}

/// An error payload is never empty and always carries the whole detail
/// text, so an error notification cannot pass the sink silently.
pub proof fn lemma_error_payload_carries_detail(detail: Seq<char>)
    ensures
        error_json(detail).len() == detail.len() + 12,
        error_json(detail).subrange(10, 10 + detail.len() as int) == detail,
{
    reveal_strlit("{\"error\":\"");
    reveal_strlit("\"}");
    assert(error_json(detail).subrange(10, 10 + detail.len() as int) =~= detail);
}

} // verus!
