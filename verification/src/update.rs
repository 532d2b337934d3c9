//! The typed model of an incoming update and the parser that extracts the
//! fields the reply builder needs.

use vstd::prelude::*;

verus! {

/// The fields this service reads out of one message object of an update.
/// Each is absent when the document does not carry it, or carries it with a
/// non-integer value: a malformed field counts as missing, never as an error.
#[derive(Clone, Copy, Debug, PartialEq, Eq)]
pub struct MessageFields {
    /// The identifier of the chat the message was posted in.
    pub chat_id: Option<i64>,
    /// The identifier of the message itself, used to thread the reply.
    pub message_id: Option<i64>,
    /// The original send time of the forwarded message, in seconds since the
    /// Unix epoch; present only when the message is a forward.
    pub forward_date: Option<i64>,
}

/// An incoming update, reduced to the two message shapes the service reads:
/// a newly posted message and an edited one. Everything else in the pushed
/// document is ignored and never represented here.
#[derive(Clone, Copy, Debug, PartialEq, Eq)]
pub struct IncomingUpdate {
    pub message: Option<MessageFields>,
    pub edited_message: Option<MessageFields>,
}

/// What the parser hands to the reply builder.
#[derive(Clone, Copy, Debug, PartialEq, Eq)]
pub struct ExtractedFields {
    /// Required for any reply; when absent, processing stops silently.
    pub chat_id: Option<i64>,
    /// Optional: the message to thread the reply against.
    pub message_id: Option<i64>,
    /// Optional: present only when the message reported on was a forward.
    pub forward_timestamp: Option<i64>,
}

/// The message object an update is read from: the new-message shape when the
/// update carries one, else the edited-message shape as a fallback.
pub open spec fn spec_current_message(u: IncomingUpdate) -> Option<MessageFields> {
    if u.message is Some {
        u.message
    } else {
        u.edited_message
    }
}

/// What `parse` returns: all three fields read from the current message,
/// each independently of the others, and all absent when the update carries
/// no message object at all.
pub open spec fn spec_parse(u: IncomingUpdate) -> ExtractedFields {
    match spec_current_message(u) {
        Some(m) => ExtractedFields {
            chat_id: m.chat_id,
            message_id: m.message_id,
            forward_timestamp: m.forward_date,
        },
        None => ExtractedFields { chat_id: None, message_id: None, forward_timestamp: None },
    }
}

/// Extract the chat identifier, the message identifier and the forward
/// timestamp from an update. Pure: no side effects, and absence of one
/// field never blocks extraction of another.
pub fn parse(update: &IncomingUpdate) -> (r: ExtractedFields)
    ensures
        r == spec_parse(*update),
{
    let current: Option<MessageFields> = if update.message.is_some() {
        update.message
    } else {
        update.edited_message
    };
    match current {
        Some(m) => ExtractedFields {
            chat_id: m.chat_id,
            message_id: m.message_id,
            forward_timestamp: m.forward_date,
        },
        None => ExtractedFields { chat_id: None, message_id: None, forward_timestamp: None },
    }
}

} // verus!
