//! The reply builder: deciding which reply to produce for the extracted
//! fields and assembling the outbound payload.

use vstd::prelude::*;

use crate::datefmt::{date_text, spec_format, timestamp_to_date_string, ts_formattable};
use crate::update::{spec_parse, parse, ExtractedFields, IncomingUpdate};

verus! {

/// The outbound request body: the reply the bot sends back into the chat.
#[derive(Debug, PartialEq, Eq)]
pub struct ReplyPayload {
    /// The chat the reply is posted in.
    pub chat_id: i64,
    /// The human-readable reply text.
    pub text: String,
    /// Marker enabling rich-text rendering of `text`; set only on the
    /// dated reply, whose text embeds platform markup.
    pub parse_mode: Option<String>,
    /// The message the reply is threaded against, when the update carried one.
    pub reply_to_message_id: Option<i64>,
}

/// The mathematical model of a reply payload.
#[verifier::ext_equal]
pub struct ReplyModel {
    pub chat_id: i64,
    pub text: Seq<char>,
    pub parse_mode: Option<Seq<char>>,
    pub reply_to_message_id: Option<i64>,
}

impl View for ReplyPayload {
    type V = ReplyModel;

    open spec fn view(&self) -> ReplyModel {
        ReplyModel {
            chat_id: self.chat_id,
            text: self.text@,
            parse_mode: match self.parse_mode {
                Some(s) => Some(s@),
                None => None,
            },
            reply_to_message_id: self.reply_to_message_id,
        }
    }
}

/// The view of an optional payload.
pub open spec fn opt_payload_view(r: Option<ReplyPayload>) -> Option<ReplyModel> {
    match r {
        Some(p) => Some(p@),
        None => None,
    }
}

/// The text of the dated reply: the formatted date, embedded in a sentence
/// between backticks (platform rich-text markup for monospace).
pub open spec fn date_reply_text(ts: int) -> Seq<char> {
    "The message was sent on `"@ + date_text(ts) + "`"@
}

/// The fixed text of the fallback reply, sent when the update carries no
/// forward timestamp.
pub open spec fn fallback_text() -> Seq<char> {
    "Could not find the date of the forwarded message"@
}

/// The marker that enables rich-text rendering.
pub open spec fn markdown_mode() -> Seq<char> {
    "MarkdownV2"@
}

/// What `build` returns.
///
/// - No chat identifier: no payload.
/// - Chat identifier and a formattable forward timestamp: the dated reply,
///   with rich-text mode enabled.
/// - Chat identifier and a forward timestamp out of the formattable range:
///   no payload. The service deliberately sends nothing rather than a
///   degraded reply.
/// - Chat identifier and no forward timestamp: the fixed fallback reply,
///   with no rich-text mode.
///
/// In both reply shapes the reply is threaded against the extracted message
/// identifier, absent when none was extracted.
pub open spec fn spec_build(f: ExtractedFields) -> Option<ReplyModel> {
    match f.chat_id {
        None => None,
        Some(chat_id) => match f.forward_timestamp {
            Some(ts) => if ts_formattable(ts as int) {
                Some(ReplyModel {
                    chat_id,
                    text: date_reply_text(ts as int),
                    parse_mode: Some(markdown_mode()),
                    reply_to_message_id: f.message_id,
                })
            } else {
                None
            },
            None => Some(ReplyModel {
                chat_id,
                text: fallback_text(),
                parse_mode: None,
                reply_to_message_id: f.message_id,
            }),
        },
    }
}

/// Well-formedness of an emitted payload: rich-text mode is enabled only on
/// the dated reply, whose text embeds a formatted date; without it the text
/// is exactly the fixed fallback sentence.
pub open spec fn payload_wf(m: ReplyModel) -> bool {
    &&& m.parse_mode is Some ==> m.parse_mode->0 == markdown_mode() && (exists|ts: int|
        m.text == date_reply_text(ts))
    &&& m.parse_mode is None ==> m.text == fallback_text()
}

/// Assemble the outbound reply payload for the extracted fields, or decide
/// that none is to be sent. Pure apart from allocating the result.
pub fn build(fields: &ExtractedFields) -> (r: Option<ReplyPayload>)
    ensures
        opt_payload_view(r) == spec_build(*fields),
        r matches Some(p) ==> p@.text.len() > 0,
        r matches Some(p) && p@.parse_mode is Some ==> date_text(
            fields.forward_timestamp->0 as int,
        ).len() > 0,
{
    let chat_id = match fields.chat_id {
        Some(c) => c,
        None => {
            return None;
        },
    };
    match fields.forward_timestamp {
        Some(ts) => match timestamp_to_date_string(ts) {
            Some(date_string) => {
                let mut text = "The message was sent on `".to_owned();
                text.append(date_string.as_str());
                text.append("`");
                proof {
                    reveal_strlit("The message was sent on `");
                }
                Some(ReplyPayload {
                    chat_id,
                    text,
                    parse_mode: Some("MarkdownV2".to_owned()),
                    reply_to_message_id: fields.message_id,
                })
            },
            None => None,
        },
        None => {
            proof {
                reveal_strlit("Could not find the date of the forwarded message");
            }
            Some(ReplyPayload {
                chat_id,
                text: "Could not find the date of the forwarded message".to_owned(),
                parse_mode: None,
                reply_to_message_id: fields.message_id,
            })
        },
    }
}

/// The whole pipeline on the typed model: parse the update, then build the
/// reply. Stateless: the result is a function of the update alone.
pub fn handle_update(update: &IncomingUpdate) -> (r: Option<ReplyPayload>)
    ensures
        opt_payload_view(r) == spec_build(spec_parse(*update)),
        r matches Some(p) ==> p@.text.len() > 0,
        r matches Some(p) && p@.parse_mode is Some ==> date_text(
            spec_parse(*update).forward_timestamp->0 as int,
        ).len() > 0,
{
    let fields = parse(update);
    build(&fields)
}

/// A reply is owed if and only if a chat identifier was extracted and the
/// forward timestamp, where there is one, is formattable.
pub proof fn lemma_build_some_iff(f: ExtractedFields)
    ensures
        spec_build(f) is Some <==> f.chat_id is Some && (f.forward_timestamp matches Some(ts)
            ==> ts_formattable(ts as int)),
{
}

/// An update lacking a chat identifier anywhere — in both its message
/// shapes — produces no reply.
pub proof fn lemma_no_chat_id_no_reply(u: IncomingUpdate)
    requires
        u.message matches Some(m) ==> m.chat_id is None,
        u.edited_message matches Some(m) ==> m.chat_id is None,
    ensures
        spec_build(spec_parse(u)) is None,
{
}

/// An update with a chat identifier and a formattable forward timestamp
/// produces a payload whose text embeds the formatted date — so it is
/// non-empty — with rich-text mode enabled and threaded against the
/// extracted message identifier.
pub proof fn lemma_forward_reply(u: IncomingUpdate, ts: i64)
    requires
        spec_parse(u).chat_id is Some,
        spec_parse(u).forward_timestamp == Some(ts),
        ts_formattable(ts as int),
    ensures
        spec_build(spec_parse(u)) matches Some(m) && m == (ReplyModel {
            chat_id: spec_parse(u).chat_id->0,
            text: date_reply_text(ts as int),
            parse_mode: Some(markdown_mode()),
            reply_to_message_id: spec_parse(u).message_id,
        }),
        spec_build(spec_parse(u))->0.text.len() > date_text(ts as int).len(),
{
    reveal_strlit("The message was sent on `");
    reveal_strlit("`");
}

/// An update with a chat identifier but no forward timestamp produces a
/// payload whose text is exactly the fixed fallback sentence, with rich-text
/// mode disabled and threaded against the extracted message identifier.
pub proof fn lemma_fallback_reply(u: IncomingUpdate)
    requires
        spec_parse(u).chat_id is Some,
        spec_parse(u).forward_timestamp is None,
    ensures
        spec_build(spec_parse(u)) matches Some(m) && m == (ReplyModel {
            chat_id: spec_parse(u).chat_id->0,
            text: fallback_text(),
            parse_mode: None,
            reply_to_message_id: spec_parse(u).message_id,
        }),
{
}

/// Every emitted payload is well-formed: rich-text mode comes only with a
/// dated text, and its absence comes only with the fixed fallback text.
pub proof fn lemma_build_wf(f: ExtractedFields)
    ensures
        spec_build(f) matches Some(m) ==> payload_wf(m),
{
    if spec_build(f) is Some {
        let m = spec_build(f)->0;
        if m.parse_mode is Some {
            let ts = f.forward_timestamp->0;
            assert(m.text == date_reply_text(ts as int));
        }
    }
}

/// Formatting is deterministic: the rendered date is a function of the
/// timestamp alone, so two results of `timestamp_to_date_string` on the
/// same timestamp are equal.
pub proof fn lemma_format_deterministic(ts: i64, r1: Option<Seq<char>>, r2: Option<Seq<char>>)
    requires
        r1 == spec_format(ts as int),
        r2 == spec_format(ts as int),
    ensures
        r1 == r2,
{
}

/// The pipeline is idempotent and stateless: two results of parsing and
/// building the identical update are equal payloads.
pub proof fn lemma_pipeline_deterministic(
    u: IncomingUpdate,
    r1: Option<ReplyModel>,
    r2: Option<ReplyModel>,
)
    requires
        r1 == spec_build(spec_parse(u)),
        r2 == spec_build(spec_parse(u)),
    ensures
        r1 == r2,
{
}

} // verus!
