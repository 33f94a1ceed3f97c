//! Data model of the hub: agents, messages, human-input requests and
//! responses, with the priority rule for new requests.
//!
//! Timestamps are carried as opaque RFC 3339 text; the structured values a
//! client attaches to a message (metadata, payload, context) are carried as
//! their serialized JSON text.

use vstd::prelude::*;

use crate::ext::lower_of;
use crate::ext::lowercase;
use crate::text::contains_seq;
use crate::text::contains_substring;

verus! {

/// Lifecycle state of a connected agent.
#[derive(Clone, Copy, Debug, PartialEq, Eq, Structural)]
pub enum AgentStatus {
    Connected,
    Active,
    Disconnected,
}

/// What kind of human input a request asks for.
#[derive(Clone, Copy, Debug, PartialEq, Eq, Structural)]
pub enum RequestType {
    Input,
    Approval,
    Choice,
    Confirmation,
    Text,
}

/// Lifecycle state of a human-input request. `Completed` and `Timeout` are
/// terminal: no transition leaves them.
#[derive(Clone, Copy, Debug, PartialEq, Eq, Structural)]
pub enum RequestStatus {
    Pending,
    Completed,
    Timeout,
}

/// Priority of a human-input request, derived once at creation.
#[derive(Clone, Copy, Debug, PartialEq, Eq, Structural)]
pub enum RequestPriority {
    Low,
    Medium,
    High,
    Critical,
}

/// An agent known to the hub.
#[derive(Clone, Debug)]
pub struct Agent {
    pub id: String,
    pub name: String,
    pub status: AgentStatus,
    pub connected_at: String,
    pub last_activity: String,
    pub metadata: Option<String>,
}

/// A status message an agent sent, as fanned out to operators.
#[derive(Clone, Debug)]
pub struct AgentMessage {
    pub id: String,
    pub agent_id: String,
    pub message_type: String,
    pub payload: String,
    pub timestamp: String,
}

/// A request for human input, owned by the tracker for its whole lifetime.
#[derive(Clone, Debug)]
pub struct HumanInputRequest {
    pub id: String,
    pub agent_id: String,
    pub agent_name: String,
    pub request_type: RequestType,
    pub message: String,
    pub options: Vec<String>,
    pub context: Option<String>,
    pub timeout_seconds: u32,
    pub timestamp: String,
    pub status: RequestStatus,
    pub priority: RequestPriority,
}

/// A human answer to a request, correlated back to the owning agent.
#[derive(Clone, Debug)]
pub struct HumanResponse {
    pub request_id: String,
    pub response: String,
    pub additional_context: Option<String>,
    pub responded_by: String,
    pub timestamp: String,
}

/// A generic envelope as it travels over the socket.
#[derive(Clone, Debug)]
pub struct WebSocketMessage {
    pub id: String,
    pub message_type: String,
    pub payload: String,
    pub timestamp: String,
}

/// Two requests carry the same data. `Vec` values are compared by their
/// contents; every other field by value.
pub open spec fn req_eq(a: HumanInputRequest, b: HumanInputRequest) -> bool {
    &&& a.id == b.id
    &&& a.agent_id == b.agent_id
    &&& a.agent_name == b.agent_name
    &&& a.request_type == b.request_type
    &&& a.message == b.message
    &&& a.options@ == b.options@
    &&& a.context == b.context
    &&& a.timeout_seconds == b.timeout_seconds
    &&& a.timestamp == b.timestamp
    &&& a.status == b.status
    &&& a.priority == b.priority
}

/// Copy a vector of strings element by element.
pub fn clone_strings(v: &Vec<String>) -> (r: Vec<String>)
    ensures
        r@ == v@,
{
    let mut r: Vec<String> = Vec::new();
    let n = v.len();
    for j in 0..n
        invariant
            n == v@.len(),
            r@ =~= v@.take(j as int),
    {
        r.push(v[j].clone());
        proof {
            assert(r@ =~= v@.take(j + 1 as int));
        }
    }
    proof {
        assert(v@.take(n as int) =~= v@);
    }
    r
}

/// Copy an optional string.
pub fn clone_opt_string(m: &Option<String>) -> (r: Option<String>)
    ensures
        r == *m,
{
    match m {
        Option::Some(s) => Option::Some(s.clone()),
        Option::None => Option::None,
    }
}

impl Agent {
    /// An exact copy of this agent.
    pub fn duplicate(&self) -> (r: Agent)
        ensures
            r == *self,
    {
        Agent {
            id: self.id.clone(),
            name: self.name.clone(),
            status: self.status,
            connected_at: self.connected_at.clone(),
            last_activity: self.last_activity.clone(),
            metadata: clone_opt_string(&self.metadata),
        }
    }
}

impl HumanInputRequest {
    /// A copy of this request carrying the same data.
    pub fn duplicate(&self) -> (r: HumanInputRequest)
        ensures
            req_eq(r, *self),
    {
        HumanInputRequest {
            id: self.id.clone(),
            agent_id: self.agent_id.clone(),
            agent_name: self.agent_name.clone(),
            request_type: self.request_type,
            message: self.message.clone(),
            options: clone_strings(&self.options),
            context: clone_opt_string(&self.context),
            timeout_seconds: self.timeout_seconds,
            timestamp: self.timestamp.clone(),
            status: self.status,
            priority: self.priority,
        }
    }
}

impl AgentStatus {
    /// The lower-case label used when the status is stored.
    pub fn label(&self) -> (r: &'static str)
        ensures
            *self == AgentStatus::Connected ==> r@ == "connected"@,
            *self == AgentStatus::Active ==> r@ == "active"@,
            *self == AgentStatus::Disconnected ==> r@ == "disconnected"@,
    {
        match self {
            AgentStatus::Connected => "connected",
            AgentStatus::Active => "active",
            AgentStatus::Disconnected => "disconnected",
        }
    }
}

impl RequestStatus {
    /// The lower-case label used when the status is stored.
    pub fn label(&self) -> (r: &'static str)
        ensures
            *self == RequestStatus::Pending ==> r@ == "pending"@,
            *self == RequestStatus::Completed ==> r@ == "completed"@,
            *self == RequestStatus::Timeout ==> r@ == "timeout"@,
    {
        match self {
            RequestStatus::Pending => "pending",
            RequestStatus::Completed => "completed",
            RequestStatus::Timeout => "timeout",
        }
    }
}

impl RequestPriority {
    /// The lower-case label used when the priority is stored.
    pub fn label(&self) -> (r: &'static str)
        ensures
            *self == RequestPriority::Low ==> r@ == "low"@,
            *self == RequestPriority::Medium ==> r@ == "medium"@,
            *self == RequestPriority::High ==> r@ == "high"@,
            *self == RequestPriority::Critical ==> r@ == "critical"@,
    {
        match self {
            RequestPriority::Low => "low",
            RequestPriority::Medium => "medium",
            RequestPriority::High => "high",
            RequestPriority::Critical => "critical",
        }
    }
}

/// The priority a request gets, as a function of its type and of the
/// lowercased message text: approvals and confirmations are always `High`;
/// otherwise the message is scanned for urgency markers.
pub open spec fn priority_of(request_type: RequestType, lowered: Seq<char>) -> RequestPriority {
    if request_type == RequestType::Approval || request_type == RequestType::Confirmation {
        RequestPriority::High
    } else if contains_seq(lowered, "critical"@) || contains_seq(lowered, "urgent"@) {
        RequestPriority::Critical
    } else if contains_seq(lowered, "optional"@) || contains_seq(lowered, "suggestion"@) {
        RequestPriority::Low
    } else {
        RequestPriority::Medium
    }
}

impl RequestPriority {
    /// Derive the priority of a new request from its type and message.
    /// An `Approval` or `Confirmation` request is `High` whatever its message
    /// says; any other type is ranked by the markers found in the lowercased
    /// message text.
    pub fn from_request_type_and_message(request_type: &RequestType, message: &str) -> (r: Self)
        ensures
            r == priority_of(*request_type, lower_of(message@)),
            *request_type == RequestType::Approval || *request_type == RequestType::Confirmation
                ==> r == RequestPriority::High,
    {
        match request_type {
            RequestType::Approval | RequestType::Confirmation => RequestPriority::High,
            _ => {
                let lowered = lowercase(message);
                if contains_substring(lowered.as_str(), "critical") || contains_substring(
                    lowered.as_str(),
                    "urgent",
                ) {
                    RequestPriority::Critical
                } else if contains_substring(lowered.as_str(), "optional") || contains_substring(
                    lowered.as_str(),
                    "suggestion",
                ) {
                    RequestPriority::Low
                } else {
                    RequestPriority::Medium
                }
            },
        }
    }
}

} // verus!
