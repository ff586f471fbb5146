//! Messages from the peer: a frame whose body is UTF-8 JSON text, told apart
//! by its `type` member.

use vstd::prelude::*;
use crate::frame::{ByteOrder, FrameError, decode_frame, encode_frame, first_frame, frame_of};
use crate::json::{is_json_text, parse_json, type_tag_of};
use vstd::utf8::{decode_utf8, encode_utf8, valid_utf8};

verus! {

/// What a message is, by its `type` member.
#[derive(Clone, Copy, Debug, PartialEq, Eq, Structural)]
pub enum MessageKind {
    /// A report of the peer's open tabs.
    Tabs,
    InjectionResult,
    HtmlResult,
    CaptureResult,
    /// An audit record, which the bridge deliberately drops.
    AuditLog,
    /// Any other `type`, or none at all.
    Other,
}

/// Why no message could be read.
#[derive(Clone, Copy, Debug, PartialEq, Eq, Structural)]
pub enum DecodeError {
    /// The stream ended inside a frame: the peer has gone.
    Truncated,
    /// The frame is whole but its body is not UTF-8 JSON; the next frame
    /// can still be read.
    Malformed,
}

/// A message read from the peer or from a subscriber.
#[derive(Debug)]
pub struct Incoming {
    pub kind: MessageKind,
    /// The message exactly as it arrived.
    pub text: String,
    /// The parsed message.
    pub json: serde_json::Value,
}

/// The kind that a `type` member names.
pub open spec fn kind_of(tag: Seq<char>) -> MessageKind {
    if tag == "tabs"@ {
        MessageKind::Tabs
    } else if tag == "injection_result"@ {
        MessageKind::InjectionResult
    } else if tag == "html_result"@ {
        MessageKind::HtmlResult
    } else if tag == "capture_result"@ {
        MessageKind::CaptureResult
    } else if tag == "audit_log"@ {
        MessageKind::AuditLog
    } else {
        MessageKind::Other
    }
}

/// The kind of a message whose `type` member is `tag`: `Other` when it has
/// no string `type` member.
pub open spec fn kind_of_member(tag: Option<Seq<char>>) -> MessageKind {
    match tag {
        Some(t) => kind_of(t),
        None => MessageKind::Other,
    }
}

/// The kinds whose messages are kept in the result history.
pub open spec fn is_result_kind(k: MessageKind) -> bool {
    k == MessageKind::InjectionResult || k == MessageKind::HtmlResult || k
        == MessageKind::CaptureResult
}

/// The kind that the `type` member `tag` names.
pub fn kind_of_tag(tag: &String) -> (r: MessageKind)
    ensures
        r == kind_of(tag@),
{
    if *tag == String::from_str("tabs") {
        MessageKind::Tabs
    } else if *tag == String::from_str("injection_result") {
        MessageKind::InjectionResult
    } else if *tag == String::from_str("html_result") {
        MessageKind::HtmlResult
    } else if *tag == String::from_str("capture_result") {
        MessageKind::CaptureResult
    } else if *tag == String::from_str("audit_log") {
        MessageKind::AuditLog
    } else {
        MessageKind::Other
    }
}

/// Whether a message of this kind goes to the result history.
pub fn is_result(kind: MessageKind) -> (r: bool)
    ensures
        r == is_result_kind(kind),
{
    match kind {
        MessageKind::InjectionResult | MessageKind::HtmlResult | MessageKind::CaptureResult => true,
        _ => false,
    }
}

/// Parses a message from its text. Fails with `Malformed` exactly when the
/// text is not JSON; the kind comes from the `type` member, and a message
/// without a string `type` is of kind `Other`.
pub fn parse_message(text: String) -> (r: Result<Incoming, DecodeError>)
    ensures
        r is Err <==> !is_json_text(encode_utf8(text@)),
        r is Err ==> r == Err::<Incoming, DecodeError>(DecodeError::Malformed),
        r matches Ok(m) ==> m.text == text && m.kind == kind_of_member(
            type_tag_of(encode_utf8(text@)),
        ),
{
    let (json, tag) = match parse_json(text.as_str().as_bytes()) {
        Ok(v) => v,
        Err(_) => return Err(DecodeError::Malformed),
    };
    let kind = match tag {
        Some(t) => kind_of_tag(&t),
        None => MessageKind::Other,
    };
    Ok(Incoming { kind, text, json })
}

/// Reads a message from a frame's body. `Malformed` when the body is not
/// UTF-8 JSON text.
pub fn message_from_body(body: &[u8]) -> (r: Result<Incoming, DecodeError>)
    ensures
        r is Err <==> !(valid_utf8(body@) && is_json_text(body@)),
        r is Err ==> r == Err::<Incoming, DecodeError>(DecodeError::Malformed),
        r matches Ok(m) ==> m.text@ == decode_utf8(body@) && m.kind == kind_of_member(
            type_tag_of(body@),
        ),
{
    let text = match crate::json::utf8_text(body) {
        Some(t) => t,
        None => return Err(DecodeError::Malformed),
    };
    proof {
        vstd::utf8::decode_utf8_encode_utf8(body@);
    }
    parse_message(text)
}

/// Reads one message from the start of `input`, and the number of bytes its
/// frame took. `Truncated` when the input ends inside the frame;
/// `Malformed` when the body is not UTF-8 JSON text.
pub fn decode_message(input: &[u8], order: ByteOrder) -> (r: Result<(Incoming, usize), DecodeError>)
    ensures
        first_frame(input@, order) is None <==> r == Err::<(Incoming, usize), DecodeError>(
            DecodeError::Truncated,
        ),
        first_frame(input@, order) matches Some((body, used)) ==> {
            &&& r == Err::<(Incoming, usize), DecodeError>(DecodeError::Malformed) <==> !(
            valid_utf8(body) && is_json_text(body))
            &&& r matches Ok((m, n)) ==> m.text@ == decode_utf8(body) && n == used && m.kind
                == kind_of_member(type_tag_of(body))
        },
{
    let (body, used) = match decode_frame(input, order) {
        Ok(f) => f,
        Err(_) => return Err(DecodeError::Truncated),
    };
    match message_from_body(body.as_slice()) {
        Ok(m) => Ok((m, used)),
        Err(e) => Err(e),
    }
}

/// The frame that carries a message's text.
pub fn encode_message(text: &str, order: ByteOrder) -> (r: Result<Vec<u8>, FrameError>)
    ensures
        encode_utf8(text@).len() > u32::MAX ==> r == Err::<Vec<u8>, FrameError>(
            FrameError::TooLong,
        ),
        encode_utf8(text@).len() <= u32::MAX ==> r is Ok && r->Ok_0@ == frame_of(
            encode_utf8(text@),
            order,
        ),
{
    encode_frame(text.as_bytes(), order)
}

/// A message written as a frame reads back as the same text, whatever
/// follows it in the stream, when that text is JSON.
pub proof fn lemma_message_round_trip(text: Seq<char>, order: ByteOrder, rest: Seq<u8>)
    requires
        encode_utf8(text).len() <= u32::MAX,
        is_json_text(encode_utf8(text)),
    ensures
        first_frame(frame_of(encode_utf8(text), order) + rest, order) matches Some((body, used))
            && valid_utf8(body) && is_json_text(body) && decode_utf8(body) == text && used
            == frame_of(encode_utf8(text), order).len(),
{
    crate::frame::lemma_frame_round_trip(encode_utf8(text), order, rest);
    vstd::utf8::encode_utf8_valid_utf8(text);
    vstd::utf8::encode_utf8_decode_utf8(text);
}

} // verus!
