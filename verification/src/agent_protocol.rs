//! The agent-facing protocol helpers: validation of an inbound message's
//! type, and the builders for the messages the hub sends to agents and
//! operators.

use vstd::prelude::*;

use crate::ext::json_as_str;
use crate::ext::json_field;
use crate::ext::json_ok;
use crate::ext::json_parse;
use crate::models::AgentMessage;
use crate::models::HumanInputRequest;
use crate::models::HumanResponse;
use crate::text::str_eq;
use crate::wire::agent_message_json;
use crate::wire::encode_agent_message;
use crate::wire::encode_opt_text;
use crate::wire::encode_request;
use crate::wire::encode_response;
use crate::wire::event_frame;
use crate::wire::frame_event;
use crate::wire::opt_text_json;
use crate::wire::request_json;
use crate::wire::response_json;

verus! {

/// Protocol handler for agent communication.
pub struct AgentProtocol;

/// The message types an agent itself may send.
#[derive(Clone, Copy, Debug, PartialEq, Eq, Structural)]
pub enum ProtocolMessage {
    RegisterAgent,
    AgentMessage,
    HumanInputRequest,
    HumanInputResponse,
}

/// Why a message was refused.
#[derive(Clone, Debug)]
pub enum ProtocolError {
    InvalidJson(String),
    MissingField(String),
    UnknownMessageType(String),
    SerializationError(String),
}

impl ProtocolError {
    /// A human-readable description of the error.
    pub fn message(&self) -> (r: String)
        ensures
            self matches ProtocolError::InvalidJson(d) ==> r@ == "Invalid JSON: "@ + d@,
            self matches ProtocolError::MissingField(d) ==> r@ == "Missing required field: "@
                + d@,
            self matches ProtocolError::UnknownMessageType(d) ==> r@ == "Unknown message type: "@
                + d@,
            self matches ProtocolError::SerializationError(d) ==> r@ == "Serialization error: "@
                + d@,
    {
        match self {
            ProtocolError::InvalidJson(d) => {
                let mut r = String::from_str("Invalid JSON: ");
                r.append(d.as_str());
                r
            },
            ProtocolError::MissingField(d) => {
                let mut r = String::from_str("Missing required field: ");
                r.append(d.as_str());
                r
            },
            ProtocolError::UnknownMessageType(d) => {
                let mut r = String::from_str("Unknown message type: ");
                r.append(d.as_str());
                r
            },
            ProtocolError::SerializationError(d) => {
                let mut r = String::from_str("Serialization error: ");
                r.append(d.as_str());
                r
            },
        }
    }
}

/// Classify a message type string: the four types an agent may send are
/// recognized, anything else is refused by name.
pub fn classify_protocol(t: &str) -> (r: Result<ProtocolMessage, ProtocolError>)
    ensures
        r == Result::<ProtocolMessage, ProtocolError>::Ok(ProtocolMessage::RegisterAgent) <==> t@
            == "register-agent"@,
        r == Result::<ProtocolMessage, ProtocolError>::Ok(ProtocolMessage::AgentMessage) <==> t@
            == "agent-message"@,
        r == Result::<ProtocolMessage, ProtocolError>::Ok(ProtocolMessage::HumanInputRequest)
            <==> t@ == "human-input-request"@,
        r == Result::<ProtocolMessage, ProtocolError>::Ok(ProtocolMessage::HumanInputResponse)
            <==> t@ == "human-input-response"@,
        (r matches Err(e) ==> e matches ProtocolError::UnknownMessageType(u) && u@ == t@),
    {
    proof {
        reveal_strlit("register-agent");
        reveal_strlit("agent-message");
        reveal_strlit("human-input-request");
        reveal_strlit("human-input-response");
        assert("register-agent"@.len() == 14);
        assert("agent-message"@.len() == 13);
        assert("human-input-request"@.len() == 19);
        assert("human-input-response"@.len() == 20);
    }
    if str_eq(t, "register-agent") {
        Result::Ok(ProtocolMessage::RegisterAgent)
    } else if str_eq(t, "agent-message") {
        Result::Ok(ProtocolMessage::AgentMessage)
    } else if str_eq(t, "human-input-request") {
        Result::Ok(ProtocolMessage::HumanInputRequest)
    } else if str_eq(t, "human-input-response") {
        Result::Ok(ProtocolMessage::HumanInputResponse)
    } else {
        Result::Err(ProtocolError::UnknownMessageType(t.to_owned()))
    }
}

impl AgentProtocol {
    /// Check that a raw message is JSON, carries a string `type` field, and
    /// names one of the four agent message types.
    pub fn validate_message(message: &str) -> (r: Result<ProtocolMessage, ProtocolError>)
        ensures
            (r matches Err(e) && e is InvalidJson) <==> !json_ok(message@),
    {
        let parsed = json_parse(message);
        match parsed {
            Option::None => Result::Err(
                ProtocolError::InvalidJson("expected a JSON document".to_owned()),
            ),
            Option::Some(v) => {
                let type_text = match json_field(&v, "type") {
                    Option::Some(tv) => json_as_str(tv),
                    Option::None => Option::None,
                };
                match type_text {
                    Option::None => Result::Err(ProtocolError::MissingField("type".to_owned())),
                    Option::Some(t) => classify_protocol(t.as_str()),
                }
            },
        }
    }

    /// The `agent-update` event for one agent message, as broadcast to
    /// operators. Building it cannot fail.
    pub fn create_agent_update_message(agent_message: &AgentMessage) -> (r: Result<
        String,
        ProtocolError,
    >)
        ensures
            (r matches Ok(s) && s@ == event_frame(
                "agent-update"@,
                agent_message_json(*agent_message),
                agent_message.timestamp@,
            )),
    {
        let data = encode_agent_message(agent_message);
        Result::Ok(frame_event("agent-update", data.as_str(), agent_message.timestamp.as_str()))
    }

    /// The `human-input-request` event for one request, as broadcast to
    /// operators. Building it cannot fail.
    pub fn create_human_request_message(request: &HumanInputRequest) -> (r: Result<
        String,
        ProtocolError,
    >)
        ensures
            (r matches Ok(s) && s@ == event_frame(
                "human-input-request"@,
                request_json(*request),
                request.timestamp@,
            )),
    {
        let data = encode_request(request);
        Result::Ok(frame_event("human-input-request", data.as_str(), request.timestamp.as_str()))
    }

    /// The `human-input-response` message pushed to the agent whose request
    /// the response answers. Building it cannot fail.
    pub fn create_response_acknowledgment(response: &HumanResponse) -> (r: Result<
        String,
        ProtocolError,
    >)
        ensures
            (r matches Ok(s) && s@ == response_json(
                response.request_id@,
                response.response@,
                opt_text_json(response.additional_context),
                response.timestamp@,
            )),
    {
        let ctx = encode_opt_text(&response.additional_context);
        Result::Ok(
            encode_response(
                response.request_id.as_str(),
                response.response.as_str(),
                ctx.as_str(),
                response.timestamp.as_str(),
            ),
        )
    }
}

} // verus!
