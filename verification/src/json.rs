//! Reducing an arbitrary update document to the typed model.
//!
//! The pushed document is a `serde_json::Value`, opaque to verification. The
//! lookups into it are trusted calls into serde_json; their results are named
//! (`member_of`, `i64_of`), and the reduction to the typed model is stated
//! and proved over those names, so the whole pipeline's result is pinned as
//! a function of the document alone.

use vstd::prelude::*;

use crate::reply::{build, opt_payload_view, payload_wf, spec_build, ReplyPayload};
use crate::update::{parse, spec_parse, IncomingUpdate, MessageFields};

verus! {

#[verifier::external_type_specification]
#[verifier::external_body]
pub struct ExValue(serde_json::Value);

/// The member of a JSON document under a string key: what
/// `serde_json::Value::get` returns — the member when the document is an
/// object carrying that key, absent otherwise. A function of the document
/// and the key alone.
pub uninterp spec fn member_of(v: serde_json::Value, key: Seq<char>) -> Option<serde_json::Value>;

/// The integer reading of a JSON value: what `serde_json::Value::as_i64`
/// returns — the number when the value is an integer representable as
/// `i64`, absent otherwise. A function of the value alone.
pub uninterp spec fn i64_of(v: serde_json::Value) -> Option<i64>;

/// Relies on `serde_json::Value::get` with a string index: a borrow of the
/// member under that key when the value is an object carrying it, `None`
/// otherwise. The result is a function of the document and the key alone,
/// named `member_of`.
#[verifier::external_body]
fn json_get<'a>(v: &'a serde_json::Value, key: &str) -> (r: Option<&'a serde_json::Value>)
    ensures
        r matches Some(x) ==> member_of(*v, key@) == Some(*x),
        r is None ==> member_of(*v, key@) is None,
{
    v.get(key)
}

/// Relies on `serde_json::Value::as_i64`: the number when the value is an
/// integer representable as `i64`, `None` otherwise. The result is a
/// function of the value alone, named `i64_of`.
#[verifier::external_body]
fn json_as_i64(v: &serde_json::Value) -> (r: Option<i64>)
    ensures
        r == i64_of(*v),
{
    v.as_i64()
}

/// The integer under an optional member, absent when the member is absent
/// or is not an integer: a malformed field counts as missing.
pub open spec fn spec_opt_member_i64(v: Option<serde_json::Value>) -> Option<i64> {
    match v {
        Some(x) => i64_of(x),
        None => None,
    }
}

/// What `read_update` yields for one message object: the chat identifier
/// under `chat.id`, the message identifier under `message_id`, and the
/// forward timestamp under `forward_date`, each independently and each
/// absent when missing or malformed.
pub open spec fn spec_read_message(m: serde_json::Value) -> MessageFields {
    MessageFields {
        chat_id: match member_of(m, "chat"@) {
            Some(c) => spec_opt_member_i64(member_of(c, "id"@)),
            None => None,
        },
        message_id: spec_opt_member_i64(member_of(m, "message_id"@)),
        forward_date: spec_opt_member_i64(member_of(m, "forward_date"@)),
    }
}

/// What `read_update` yields: the message object under `message` and the
/// one under `edited_message`, each absent when the document does not carry
/// it. Unknown fields are ignored; no input is an error.
pub open spec fn spec_read_update(v: serde_json::Value) -> IncomingUpdate {
    IncomingUpdate {
        message: match member_of(v, "message"@) {
            Some(m) => Some(spec_read_message(m)),
            None => None,
        },
        edited_message: match member_of(v, "edited_message"@) {
            Some(m) => Some(spec_read_message(m)),
            None => None,
        },
    }
}

/// The integer under an optional member; see `spec_opt_member_i64`.
fn opt_member_i64(v: Option<&serde_json::Value>) -> (r: Option<i64>)
    ensures
        r == (match v {
            Some(x) => i64_of(*x),
            None => None::<i64>,
        }),
{
    match v {
        Some(x) => json_as_i64(x),
        None => None,
    }
}

/// Read one message object; see `spec_read_message`.
fn read_message(m: &serde_json::Value) -> (r: MessageFields)
    ensures
        r == spec_read_message(*m),
{
    let chat_id = match json_get(m, "chat") {
        Some(c) => opt_member_i64(json_get(c, "id")),
        None => None,
    };
    MessageFields {
        chat_id,
        message_id: opt_member_i64(json_get(m, "message_id")),
        forward_date: opt_member_i64(json_get(m, "forward_date")),
    }
}

/// Reduce an arbitrary update document to the typed model; see
/// `spec_read_update`.
pub fn read_update(v: &serde_json::Value) -> (r: IncomingUpdate)
    ensures
        r == spec_read_update(*v),
{
    let message = match json_get(v, "message") {
        Some(m) => Some(read_message(m)),
        None => None,
    };
    let edited_message = match json_get(v, "edited_message") {
        Some(m) => Some(read_message(m)),
        None => None,
    };
    IncomingUpdate { message, edited_message }
}

/// The compute part of handling one webhook call: reduce the document to
/// the typed model, parse it, and build the reply. Returns the payload to
/// send, or `None` when nothing is to be sent. The result is exactly what
/// the verified pipeline yields on the document's typed reduction — a
/// function of the document alone — and every emitted payload is
/// well-formed with non-empty text.
pub fn process_update(v: &serde_json::Value) -> (r: Option<ReplyPayload>)
    ensures
        opt_payload_view(r) == spec_build(spec_parse(spec_read_update(*v))),
        r matches Some(p) ==> payload_wf(p@) && p@.text.len() > 0,
{
    let update = read_update(v);
    let fields = parse(&update);
    let r = build(&fields);
    proof {
        crate::reply::lemma_build_wf(spec_parse(update));
    }
    r
}

} // verus!
