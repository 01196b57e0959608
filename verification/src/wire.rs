//! The wire format of a streaming connection: one text frame per message,
//! holding the message as a JSON object with the members `user` and `text`,
//! in that order and without white space.

use vstd::prelude::*;
use crate::message::{Message, MessageView};

verus! {

/// What `serde_json` makes of the text `s`: the JSON string literal for it,
/// that is, the text between double quotes with the characters that JSON
/// does not allow in a string replaced by their escapes; or `None` where it
/// gives an error instead.
pub uninterp spec fn json_text(s: Seq<char>) -> Option<Seq<char>>;

/// `serde_json::to_string` on a string slice, with its error dropped.
///
/// Trusted: the outcome is `json_text` of the argument, that is, whether the
/// call succeeds and what it then returns depend on the characters of `s`
/// and on nothing else.
#[verifier::external_body]
fn json_quote(s: &str) -> (res: Option<String>)
    ensures
        match res {
            Some(t) => json_text(s@) == Some(t@),
            None => json_text(s@) is None,
        },
{
    serde_json::to_string(s).ok()
}

/// The frame built around two JSON values: `{"user":U,"text":T}`.
pub open spec fn frame_text(user_json: Seq<char>, text_json: Seq<char>) -> Seq<char> {
    "{\"user\":"@ + user_json + ",\"text\":"@ + text_json + "}"@
}

/// The text frame that carries the message `m`: the frame around the JSON
/// string literals of its two fields. There is none if either field has no
/// JSON string literal.
pub open spec fn wire_text(m: MessageView) -> Option<Seq<char>> {
    match (json_text(m.user), json_text(m.text)) {
        (Some(user_json), Some(text_json)) => Some(frame_text(user_json, text_json)),
        _ => None,
    }
}

/// Puts two JSON values, already written out, into the frame of a message.
pub fn frame(user_json: &str, text_json: &str) -> (res: String)
    ensures
        res@ == frame_text(user_json@, text_json@),
{
    let mut out = String::from_str("{\"user\":");
    out.append(user_json);
    out.append(",\"text\":");
    out.append(text_json);
    out.append("}");
    out
}

/// Writes `msg` as the text frame of the wire format, or returns `None`
/// when one of its fields cannot be written as a JSON string literal.
pub fn encode(msg: &Message) -> (res: Option<String>)
    ensures
        match res {
            Some(f) => wire_text(msg@) == Some(f@),
            None => wire_text(msg@) is None,
        },
{
    match json_quote(msg.user.as_str()) {
        Some(user_json) => match json_quote(msg.text.as_str()) {
            Some(text_json) => Some(frame(user_json.as_str(), text_json.as_str())),
            None => None,
        },
        None => None,
    }
}

} // verus!
