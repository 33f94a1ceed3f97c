//! Inbound envelopes: the closed set of message types the hub recognizes,
//! and the decoder that turns raw socket text into one of them.
//!
//! Decoding itself leans on `serde_json` through the accessors in `ext`;
//! what the hub *does* with a decoded envelope is stated and proved in the
//! router.

use vstd::prelude::*;

use crate::ext::json_array;
use crate::ext::json_as_str;
use crate::ext::json_as_u64;
use crate::ext::json_dump;
use crate::ext::json_field;
use crate::ext::json_is_null;
use crate::ext::json_ok;
use crate::ext::json_parse;
use crate::text::str_eq;

verus! {

/// The three content-forwarding envelope types.
#[derive(Clone, Copy, Debug, PartialEq, Eq, Structural)]
pub enum ContentKind {
    Markdown,
    Code,
    Image,
}

/// The event name a content kind is forwarded under.
pub open spec fn content_type_name(k: ContentKind) -> Seq<char> {
    match k {
        ContentKind::Markdown => "markdown-content"@,
        ContentKind::Code => "code-content"@,
        ContentKind::Image => "image-content"@,
    }
}

/// The event name a content kind is forwarded under.
pub fn content_type_str(k: &ContentKind) -> (r: &'static str)
    ensures
        r@ == content_type_name(*k),
{
    match k {
        ContentKind::Markdown => "markdown-content",
        ContentKind::Code => "code-content",
        ContentKind::Image => "image-content",
    }
}

/// One decoded inbound envelope. A field the sender left out is `None`; the
/// router applies each type's default. Structured values (metadata, payload,
/// context, data) are carried as their serialized JSON text.
pub enum Envelope {
    /// `register-agent{name?, metadata?}`
    RegisterAgent { name: Option<String>, metadata: Option<String> },
    /// `register-gui{}`
    RegisterGui,
    /// `agent-message{id?, payload}`
    AgentMessage { id: Option<String>, payload: String },
    /// `human-input-request{requestId?, inputType?, message?, options?, context?, timeout?}`
    HumanInputRequest {
        request_id: Option<String>,
        input_type: Option<String>,
        message: Option<String>,
        options: Option<Vec<String>>,
        context: Option<String>,
        timeout: Option<u64>,
    },
    /// `human-input-response{requestId, response, additionalContext?}`
    HumanInputResponse {
        request_id: Option<String>,
        response: Option<String>,
        additional_context: String,
    },
    /// `markdown-content` / `code-content` / `image-content`, each `{data}`
    Content { kind: ContentKind, data: String },
    /// A recognized JSON object of an unrecognized type: logged and ignored.
    Unknown { message_type: String },
    /// Text that is not JSON at all: logged and ignored.
    Invalid,
}

/// The string of an optional field of `v`, when present and a string.
fn opt_str_field(v: &serde_json::Value, key: &str) -> (r: Option<String>) {
    match json_field(v, key) {
        Option::Some(f) => json_as_str(f),
        Option::None => Option::None,
    }
}

/// The serialized text of a field of `v`, `"null"` when absent, as splicing
/// the field into an outbound object would write it.
fn raw_field(v: &serde_json::Value, key: &str) -> (r: String) {
    match json_field(v, key) {
        Option::Some(f) => json_dump(f),
        Option::None => "null".to_owned(),
    }
}

/// The serialized text of a field of `v`, `None` when absent or JSON `null`.
fn opt_raw_field(v: &serde_json::Value, key: &str) -> (r: Option<String>) {
    match json_field(v, key) {
        Option::Some(f) => {
            if json_is_null(f) {
                Option::None
            } else {
                Option::Some(json_dump(f))
            }
        },
        Option::None => Option::None,
    }
}

/// The strings among the elements of an array field of `v`, in order;
/// `None` when the field is absent or not an array.
fn str_array_field(v: &serde_json::Value, key: &str) -> (r: Option<Vec<String>>) {
    match json_field(v, key) {
        Option::Some(f) => {
            match json_array(f) {
                Option::Some(items) => {
                    let mut out: Vec<String> = Vec::new();
                    let n = items.len();
                    for i in 0..n
                        invariant
                            n == items@.len(),
                    {
                        match json_as_str(&items[i]) {
                            Option::Some(s) => out.push(s),
                            Option::None => {},
                        }
                    }
                    Option::Some(out)
                },
                Option::None => Option::None,
            }
        },
        Option::None => Option::None,
    }
}

/// Decode one inbound message. Text that `serde_json` refuses decodes to
/// `Invalid`, and to nothing else; recognized types decode to their variant
/// with the fields the sender supplied; anything else is `Unknown`.
pub fn decode_envelope(text: &str) -> (e: Envelope)
    ensures
        e is Invalid <==> !json_ok(text@),
{
    let parsed = json_parse(text);
    match parsed {
        Option::None => Envelope::Invalid,
        Option::Some(v) => {
            let type_text = match json_field(&v, "type") {
                Option::Some(tv) => match json_as_str(tv) {
                    Option::Some(t) => t,
                    Option::None => "unknown".to_owned(),
                },
                Option::None => "unknown".to_owned(),
            };
            if str_eq(type_text.as_str(), "register-agent") {
                Envelope::RegisterAgent {
                    name: opt_str_field(&v, "name"),
                    metadata: opt_raw_field(&v, "metadata"),
                }
            } else if str_eq(type_text.as_str(), "register-gui") {
                Envelope::RegisterGui
            } else if str_eq(type_text.as_str(), "agent-message") {
                Envelope::AgentMessage {
                    id: opt_str_field(&v, "id"),
                    payload: raw_field(&v, "payload"),
                }
            } else if str_eq(type_text.as_str(), "human-input-request") {
                Envelope::HumanInputRequest {
                    request_id: opt_str_field(&v, "requestId"),
                    input_type: opt_str_field(&v, "inputType"),
                    message: opt_str_field(&v, "message"),
                    options: str_array_field(&v, "options"),
                    context: opt_raw_field(&v, "context"),
                    timeout: match json_field(&v, "timeout") {
                        Option::Some(f) => json_as_u64(f),
                        Option::None => Option::None,
                    },
                }
            } else if str_eq(type_text.as_str(), "human-input-response") {
                Envelope::HumanInputResponse {
                    request_id: opt_str_field(&v, "requestId"),
                    response: opt_str_field(&v, "response"),
                    additional_context: raw_field(&v, "additionalContext"),
                }
            } else if str_eq(type_text.as_str(), "markdown-content") {
                Envelope::Content { kind: ContentKind::Markdown, data: raw_field(&v, "data") }
            } else if str_eq(type_text.as_str(), "code-content") {
                Envelope::Content { kind: ContentKind::Code, data: raw_field(&v, "data") }
            } else if str_eq(type_text.as_str(), "image-content") {
                Envelope::Content { kind: ContentKind::Image, data: raw_field(&v, "data") }
            } else {
                Envelope::Unknown { message_type: type_text }
            }
        },
    }
}

} // verus!
