//! The message router: every envelope's effect on the hub's state, and the
//! messages the hub sends out in turn, stated exactly and proved.
//!
//! Handlers mutate the registry and tracker in place and return the outward
//! effects — persistence writes and socket sends — in the order they are to
//! be performed: state change first, then persistence, then delivery.

use vstd::prelude::*;

use crate::envelope::ContentKind;
use crate::envelope::Envelope;
use crate::envelope::content_type_name;
use crate::envelope::content_type_str;
use crate::envelope::decode_envelope;
use crate::models::Agent;
use crate::models::AgentMessage;
use crate::models::AgentStatus;
use crate::models::HumanInputRequest;
use crate::models::HumanResponse;
use crate::models::RequestStatus;
use crate::models::RequestType;
use crate::models::priority_of;
use crate::models::req_eq;
use crate::registry::Connection;
use crate::registry::ConnectionRegistry;
use crate::registry::Role;
use crate::registry::activity_updated;
use crate::registry::conn_of;
use crate::registry::conn_index;
use crate::registry::has_conn;
use crate::registry::of_role;
use crate::registry::profiles;
use crate::ext::fresh_uuid;
use crate::ext::json_ok;
use crate::ext::lower_of;
use crate::ext::now_rfc3339;
use crate::text::str_eq;
use crate::tracker::RequestTracker;
use crate::tracker::completed_at;
use crate::tracker::has_pending;
use crate::tracker::has_req;
use crate::tracker::req_index;
use crate::wire::ack_json;
use crate::wire::agent_json;
use crate::wire::agent_message_json;
use crate::wire::encode_ack;
use crate::wire::encode_agent;
use crate::wire::encode_agent_message;
use crate::wire::encode_request;
use crate::wire::encode_opt_text;
use crate::wire::encode_response;
use crate::wire::opt_text_json;
use crate::wire::request_json;
use crate::wire::response_json;
use crate::wire::event_frame;
use crate::wire::frame_event;
use crate::wire::disconnect_data_json;
use crate::wire::encode_disconnect_data;

verus! {

/// One outward step the caller performs after a handler returns: a
/// best-effort persistence write, or a message pushed to one connection's
/// outbound channel.
pub enum Effect {
    /// Push `text` to the connection with id `to`.
    Send { to: String, text: String },
    /// Record the agent with the persistence gateway.
    PersistAgent { agent: Agent },
    /// Record the request with the persistence gateway.
    PersistRequest { request: HumanInputRequest },
    /// Record the response with the persistence gateway.
    PersistResponse { response: HumanResponse },
}

/// The hub's state: the connection registry and the request tracker.
pub struct Hub {
    pub registry: ConnectionRegistry,
    pub tracker: RequestTracker,
}

/// `effs` delivers the text `body` to exactly the operators among `conns`,
/// in registration order.
pub open spec fn is_broadcast(effs: Seq<Effect>, conns: Seq<Connection>, body: Seq<char>) -> bool {
    &&& effs.len() == of_role(conns, Role::Operator).len()
    &&& forall|k: int|
        0 <= k < effs.len() ==> ((#[trigger] effs[k]) matches Effect::Send { to, text } && to@
            == of_role(conns, Role::Operator)[k].id@ && text@ == body)
}

/// A sequence without operators has an empty operator sub-sequence.
pub proof fn lemma_no_operators(conns: Seq<Connection>)
    requires
        forall|i: int| 0 <= i < conns.len() ==> (#[trigger] conns[i]).role != Role::Operator,
    ensures
        of_role(conns, Role::Operator).len() == 0,
    decreases conns.len(),
{
    if conns.len() > 0 {
        lemma_no_operators(conns.drop_last());
    }
}

/// A broadcast made while no operator is registered delivers to nobody.
pub proof fn lemma_broadcast_without_operators(
    effs: Seq<Effect>,
    conns: Seq<Connection>,
    body: Seq<char>,
)
    requires
        is_broadcast(effs, conns, body),
        forall|i: int| 0 <= i < conns.len() ==> (#[trigger] conns[i]).role != Role::Operator,
    ensures
        effs.len() == 0,
{
    lemma_no_operators(conns);
}

/// Append one `Send` of `body` for every operator in the registry.
fn append_broadcast(effs: &mut Vec<Effect>, reg: &ConnectionRegistry, body: &str)
    requires
        reg.wf(),
    ensures
        final(effs)@.len() == old(effs)@.len() + of_role(reg.connections@, Role::Operator).len(),
        final(effs)@.take(old(effs)@.len() as int) == old(effs)@,
        is_broadcast(
            final(effs)@.skip(old(effs)@.len() as int),
            reg.connections@,
            body@,
        ),
{
    let ops = reg.list_by_role(Role::Operator);
    let n = ops.len();
    for i in 0..n
        invariant
            n == ops@.len(),
            ops@ == of_role(reg.connections@, Role::Operator),
            effs@.len() == old(effs)@.len() + i,
            effs@.take(old(effs)@.len() as int) == old(effs)@,
            forall|k: int|
                0 <= k < i ==> ((#[trigger] effs@[old(effs)@.len() + k]) matches Effect::Send {
                    to,
                    text,
                } && to@ == ops@[k].id@ && text@ == body@),
    {
        effs.push(Effect::Send { to: ops[i].id.clone(), text: body.to_owned() });
        proof {
            assert(effs@.take(old(effs)@.len() as int) =~= old(effs)@);
        }
    }
    proof {
        let tail = effs@.skip(old(effs)@.len() as int);
        assert(forall|k: int|
            0 <= k < tail.len() ==> tail[k] == effs@[old(effs)@.len() + k]);
    }
}

impl Hub {
    /// Registry and tracker are both well-formed.
    pub open spec fn wf(self) -> bool {
        &&& self.registry.wf()
        &&& self.tracker.wf()
    }

    /// A hub with no connections and no requests.
    pub fn new() -> (r: Hub)
        ensures
            r.wf(),
            r.registry.connections@.len() == 0,
            r.tracker.requests@.len() == 0,
    {
        Hub { registry: ConnectionRegistry::new(), tracker: RequestTracker::new() }
    }
}

/// What registering an operator connection does: with the id free, exactly
/// that connection is appended and nothing is sent; with the id taken,
/// nothing changes. No event is fanned out either way.
pub open spec fn gui_registered_post(
    hub0: Hub,
    hub1: Hub,
    effs: Seq<Effect>,
    conn_id: Seq<char>,
) -> bool {
    &&& hub1.tracker == hub0.tracker
    &&& effs.len() == 0
    &&& if has_conn(hub0.registry.connections@, conn_id) {
        hub1.registry == hub0.registry
    } else {
        &&& hub1.registry.connections@.len() == hub0.registry.connections@.len() + 1
        &&& hub1.registry.connections@.drop_last() == hub0.registry.connections@
        &&& hub1.registry.connections@.last().id@ == conn_id
        &&& hub1.registry.connections@.last().role == Role::Operator
        &&& hub1.registry.connections@.last().agent is None
    }
}

/// What forwarding a content envelope does: the state is untouched and the
/// data travels verbatim to every operator, wrapped with the content type
/// and the timestamp.
pub open spec fn content_post(
    hub0: Hub,
    hub1: Hub,
    effs: Seq<Effect>,
    kind: ContentKind,
    data: String,
    now: Seq<char>,
) -> bool {
    &&& hub1 == hub0
    &&& is_broadcast(
        effs,
        hub0.registry.connections@,
        event_frame(content_type_name(kind), data@, now),
    )
}

/// The name used in an `agent-disconnected` event for a departed connection.
pub open spec fn departed_name(c: Connection) -> Seq<char> {
    match c.agent {
        Some(a) => a.name@,
        None => "Unknown"@,
    }
}

/// What a disconnect does: an unknown id changes nothing; a known id loses
/// exactly its connection; when that connection was an agent, one
/// `agent-disconnected` event with the agent's id and name goes to every
/// remaining operator.
pub open spec fn disconnect_post(
    hub0: Hub,
    hub1: Hub,
    effs: Seq<Effect>,
    conn_id: Seq<char>,
    now: Seq<char>,
) -> bool {
    &&& hub1.tracker == hub0.tracker
    &&& if !has_conn(hub0.registry.connections@, conn_id) {
        hub1.registry == hub0.registry && effs.len() == 0
    } else {
        &&& hub1.registry.connections@ == hub0.registry.connections@.remove(
            conn_index(hub0.registry.connections@, conn_id),
        )
        &&& if conn_of(hub0.registry.connections@, conn_id).role == Role::Agent {
            is_broadcast(
                effs,
                hub1.registry.connections@,
                event_frame(
                    "agent-disconnected"@,
                    disconnect_data_json(
                        conn_id,
                        departed_name(conn_of(hub0.registry.connections@, conn_id)),
                    ),
                    now,
                ),
            )
        } else {
            effs.len() == 0
        }
    }
}

/// The agent profile built from a `register-agent` envelope: the connection
/// id, the given name or its default, a `Connected` status, both timestamps
/// at `now`, and the metadata as given.
pub open spec fn agent_built(
    a: Agent,
    conn_id: Seq<char>,
    name: Option<String>,
    metadata: Option<String>,
    now: Seq<char>,
) -> bool {
    &&& a.id@ == conn_id
    &&& a.name@ == match name {
        Some(n) => n@,
        None => "Unknown Agent"@,
    }
    &&& a.status == AgentStatus::Connected
    &&& a.connected_at@ == now
    &&& a.last_activity@ == now
    &&& a.metadata == metadata
}

/// What `register-agent` does: with the connection id free, an agent
/// connection carrying the new profile is appended, the profile goes to the
/// persistence gateway, the sender gets its acknowledgment, and an
/// `agent-connected` event goes to every operator — in that order. With the
/// id already registered, nothing changes and nothing is sent.
pub open spec fn agent_registered_post(
    hub0: Hub,
    hub1: Hub,
    effs: Seq<Effect>,
    conn_id: Seq<char>,
    name: Option<String>,
    metadata: Option<String>,
    now: Seq<char>,
) -> bool {
    &&& hub1.tracker == hub0.tracker
    &&& if has_conn(hub0.registry.connections@, conn_id) {
        hub1.registry == hub0.registry && effs.len() == 0
    } else {
        &&& hub1.registry.connections@.len() == hub0.registry.connections@.len() + 1
        &&& hub1.registry.connections@.drop_last() == hub0.registry.connections@
        &&& hub1.registry.connections@.last().id@ == conn_id
        &&& hub1.registry.connections@.last().role == Role::Agent
        &&& (hub1.registry.connections@.last().agent matches Some(stored) && agent_built(
            stored,
            conn_id,
            name,
            metadata,
            now,
        ))
        &&& effs.len() == 2 + of_role(hub0.registry.connections@, Role::Operator).len()
        &&& (effs[0] matches Effect::PersistAgent { agent } && agent_built(
            agent,
            conn_id,
            name,
            metadata,
            now,
        ) && is_broadcast(
            effs.skip(2),
            hub0.registry.connections@,
            event_frame("agent-connected"@, agent_json(agent), now),
        ))
        &&& (effs[1] matches Effect::Send { to, text } && to@ == conn_id && text@ == ack_json(
            conn_id,
            now,
        ))
    }
}

/// The agent message built from an `agent-message` envelope: the given id or
/// the fresh one, the sender's connection id, the fixed type name, the
/// payload verbatim, and `now`.
pub open spec fn message_built(
    m: AgentMessage,
    conn_id: Seq<char>,
    msg_id: Option<String>,
    payload: String,
    now: Seq<char>,
    fresh: Seq<char>,
) -> bool {
    &&& m.id@ == match msg_id {
        Some(s) => s@,
        None => fresh,
    }
    &&& m.agent_id@ == conn_id
    &&& m.message_type@ == "agent-message"@
    &&& m.payload == payload
    &&& m.timestamp@ == now
}

/// What `agent-message` does: the sender's profile (when it has one) turns
/// `Active` with its `last_activity` at `now`, and an `agent-update` event
/// carrying the message goes to every operator. Nothing is persisted.
pub open spec fn agent_message_post(
    hub0: Hub,
    hub1: Hub,
    effs: Seq<Effect>,
    conn_id: Seq<char>,
    msg_id: Option<String>,
    payload: String,
    now: Seq<char>,
    fresh: Seq<char>,
) -> bool {
    &&& hub1.tracker == hub0.tracker
    &&& activity_updated(hub0.registry.connections@, hub1.registry.connections@, conn_id, now)
    &&& exists|m: AgentMessage|
        message_built(m, conn_id, msg_id, payload, now, fresh) && is_broadcast(
            effs,
            hub1.registry.connections@,
            event_frame("agent-update"@, agent_message_json(m), now),
        )
}

impl Hub {
    /// Register the connection `conn_id` as an agent with the profile a
    /// `register-agent` envelope describes, acknowledge it, and announce it
    /// to the operators.
    pub fn handle_agent_registration(
        &mut self,
        conn_id: &str,
        name: Option<String>,
        metadata: Option<String>,
        now: &str,
    ) -> (r: Vec<Effect>)
        requires
            old(self).wf(),
        ensures
            final(self).wf(),
            agent_registered_post(
                *old(self),
                *final(self),
                r@,
                conn_id@,
                name,
                metadata,
                now@,
            ),
    {
        let ghost name0 = name;
        let agent_name: String = match name {
            Option::Some(n) => n,
            Option::None => "Unknown Agent".to_owned(),
        };
        let agent = Agent {
            id: conn_id.to_owned(),
            name: agent_name,
            status: AgentStatus::Connected,
            connected_at: now.to_owned(),
            last_activity: now.to_owned(),
            metadata,
        };
        let conn = Connection {
            id: conn_id.to_owned(),
            role: Role::Agent,
            agent: Option::Some(agent.duplicate()),
        };
        let ok = self.registry.register(conn);
        if !ok {
            return Vec::new();
        }
        proof {
            assert(self.registry.connections@.drop_last() =~= old(self).registry.connections@);
            assert(agent_built(agent, conn_id@, name0, agent.metadata, now@));
        }
        let mut effs: Vec<Effect> = Vec::new();
        let data = encode_agent(&agent);
        let body = frame_event("agent-connected", data.as_str(), now);
        let ack = encode_ack(conn_id, now);
        effs.push(Effect::PersistAgent { agent });
        effs.push(Effect::Send { to: conn_id.to_owned(), text: ack });
        let ghost pre = effs@;
        append_broadcast(&mut effs, &self.registry, body.as_str());
        proof {
            let reg0 = old(self).registry.connections@;
            let reg1 = self.registry.connections@;
            assert(reg1.drop_last() =~= reg0);
            assert(reg1.last().role == Role::Agent);
            assert(of_role(reg1, Role::Operator) == of_role(reg0, Role::Operator));
            assert(is_broadcast(effs@.skip(2), reg0, body@));
            assert(effs@[0] == pre[0]);
            assert(effs@[1] == pre[1]);
        }
        effs
    }

    /// Record activity from the agent on `conn_id` and fan the message out
    /// to the operators as an `agent-update` event.
    pub fn handle_agent_message(
        &mut self,
        conn_id: &str,
        msg_id: Option<String>,
        payload: String,
        now: &str,
        fresh_id: &str,
    ) -> (r: Vec<Effect>)
        requires
            old(self).wf(),
        ensures
            final(self).wf(),
            agent_message_post(
                *old(self),
                *final(self),
                r@,
                conn_id@,
                msg_id,
                payload,
                now@,
                fresh_id@,
            ),
    {
        let ghost msg_id0 = msg_id;
        let ghost payload0 = payload;
        let _had_profile = self.registry.update_activity(conn_id, now);
        let message_id: String = match msg_id {
            Option::Some(s) => s,
            Option::None => fresh_id.to_owned(),
        };
        let m = AgentMessage {
            id: message_id,
            agent_id: conn_id.to_owned(),
            message_type: "agent-message".to_owned(),
            payload,
            timestamp: now.to_owned(),
        };
        let ghost gm = m;
        let data = encode_agent_message(&m);
        let body = frame_event("agent-update", data.as_str(), now);
        let mut effs: Vec<Effect> = Vec::new();
        append_broadcast(&mut effs, &self.registry, body.as_str());
        proof {
            assert(effs@.skip(0) =~= effs@);
            assert(message_built(gm, conn_id@, msg_id0, payload0, now@, fresh_id@));
        }
        effs
    }
}

/// The text of an optional string field, empty when absent.
pub open spec fn text_or_empty(o: Option<String>) -> Seq<char> {
    match o {
        Some(s) => s@,
        None => Seq::empty(),
    }
}

/// The id a new request gets: the caller's, or the freshly drawn one.
pub open spec fn chosen_id(request_id: Option<String>, fresh: Seq<char>) -> Seq<char> {
    match request_id {
        Some(s) => s@,
        None => fresh,
    }
}

/// The request type named by the `inputType` field; anything else, or no
/// field at all, is `Input`.
pub open spec fn request_type_of(input_type: Option<String>) -> RequestType {
    match input_type {
        Some(t) => {
            if t@ == "approval"@ {
                RequestType::Approval
            } else if t@ == "choice"@ {
                RequestType::Choice
            } else if t@ == "confirmation"@ {
                RequestType::Confirmation
            } else if t@ == "text"@ {
                RequestType::Text
            } else {
                RequestType::Input
            }
        },
        None => RequestType::Input,
    }
}

/// Map the `inputType` field to the request type.
fn request_type_from(input_type: &Option<String>) -> (r: RequestType)
    ensures
        r == request_type_of(*input_type),
{
    match input_type {
        Option::Some(t) => {
            if str_eq(t.as_str(), "approval") {
                RequestType::Approval
            } else if str_eq(t.as_str(), "choice") {
                RequestType::Choice
            } else if str_eq(t.as_str(), "confirmation") {
                RequestType::Confirmation
            } else if str_eq(t.as_str(), "text") {
                RequestType::Text
            } else {
                RequestType::Input
            }
        },
        Option::None => RequestType::Input,
    }
}

/// The agent name the registry knows for `conn_id`, or its default.
pub open spec fn agent_name_of(conns: Seq<Connection>, conn_id: Seq<char>) -> Seq<char> {
    if has_conn(conns, conn_id) {
        match conn_of(conns, conn_id).agent {
            Some(a) => a.name@,
            None => "Unknown Agent"@,
        }
    } else {
        "Unknown Agent"@
    }
}

/// The timeout stored on a request: the given seconds truncated to 32 bits,
/// or the default of 300.
pub open spec fn timeout_of(timeout: Option<u64>) -> u32 {
    match timeout {
        Some(t) => (t % 0x100000000) as u32,
        None => 300u32,
    }
}

/// The request built from a `human-input-request` envelope: each absent
/// field filled with its default, the agent's name resolved from the
/// registry, a `Pending` status and the derived priority.
pub open spec fn request_built(
    r: HumanInputRequest,
    reg0: Seq<Connection>,
    conn_id: Seq<char>,
    request_id: Option<String>,
    input_type: Option<String>,
    message: Option<String>,
    options: Option<Vec<String>>,
    context: Option<String>,
    timeout: Option<u64>,
    now: Seq<char>,
    fresh: Seq<char>,
) -> bool {
    &&& r.id@ == chosen_id(request_id, fresh)
    &&& r.agent_id@ == conn_id
    &&& r.agent_name@ == agent_name_of(reg0, conn_id)
    &&& r.request_type == request_type_of(input_type)
    &&& r.message@ == text_or_empty(message)
    &&& r.options@ == match options {
        Some(v) => v@,
        None => Seq::<String>::empty(),
    }
    &&& r.context == context
    &&& r.timeout_seconds == timeout_of(timeout)
    &&& r.timestamp@ == now
    &&& r.status == RequestStatus::Pending
    &&& r.priority == priority_of(request_type_of(input_type), lower_of(text_or_empty(message)))
}

/// What `human-input-request` does: with the chosen id free, the built
/// request joins the tracker, goes to the persistence gateway, and is
/// fanned out to every operator; with the id already taken, nothing
/// changes. The registry is read, never written.
pub open spec fn request_created_post(
    hub0: Hub,
    hub1: Hub,
    effs: Seq<Effect>,
    conn_id: Seq<char>,
    request_id: Option<String>,
    input_type: Option<String>,
    message: Option<String>,
    options: Option<Vec<String>>,
    context: Option<String>,
    timeout: Option<u64>,
    now: Seq<char>,
    fresh: Seq<char>,
) -> bool {
    &&& hub1.registry == hub0.registry
    &&& if has_req(hub0.tracker.requests@, chosen_id(request_id, fresh)) {
        hub1.tracker == hub0.tracker && effs.len() == 0
    } else {
        &&& hub1.tracker.requests@.len() == hub0.tracker.requests@.len() + 1
        &&& hub1.tracker.requests@.drop_last() == hub0.tracker.requests@
        &&& request_built(
            hub1.tracker.requests@.last(),
            hub0.registry.connections@,
            conn_id,
            request_id,
            input_type,
            message,
            options,
            context,
            timeout,
            now,
            fresh,
        )
        &&& effs.len() == 1 + of_role(hub0.registry.connections@, Role::Operator).len()
        &&& (effs[0] matches Effect::PersistRequest { request } && req_eq(
            request,
            hub1.tracker.requests@.last(),
        ) && is_broadcast(
            effs.skip(1),
            hub0.registry.connections@,
            event_frame("human-input-request"@, request_json(request), now),
        ))
    }
}

/// What `human-input-response` does: with a pending request under the id,
/// that request alone turns `Completed` and the response is pushed straight
/// to the owning agent's connection, when it is still registered; without
/// one, nothing changes and nothing is sent.
pub open spec fn response_routed_post(
    hub0: Hub,
    hub1: Hub,
    effs: Seq<Effect>,
    request_id: Option<String>,
    response: Option<String>,
    additional_context: String,
    now: Seq<char>,
) -> bool {
    let rid = text_or_empty(request_id);
    &&& hub1.registry == hub0.registry
    &&& if !has_pending(hub0.tracker.requests@, rid) {
        hub1.tracker == hub0.tracker && effs.len() == 0
    } else {
        let i = req_index(hub0.tracker.requests@, rid);
        let aid = hub0.tracker.requests@[i].agent_id@;
        &&& hub1.tracker.requests@ == completed_at(hub0.tracker.requests@, i)
        &&& if has_conn(hub0.registry.connections@, aid) {
            effs.len() == 1 && (effs[0] matches Effect::Send { to, text } && to@ == aid && text@
                == response_json(rid, text_or_empty(response), additional_context@, now))
        } else {
            effs.len() == 0
        }
    }
}

impl Hub {
    /// Create the request a `human-input-request` envelope describes,
    /// persist it, and announce it to the operators.
    pub fn handle_human_input_request(
        &mut self,
        conn_id: &str,
        request_id: Option<String>,
        input_type: Option<String>,
        message: Option<String>,
        options: Option<Vec<String>>,
        context: Option<String>,
        timeout: Option<u64>,
        now: &str,
        fresh_id: &str,
    ) -> (r: Vec<Effect>)
        requires
            old(self).wf(),
        ensures
            final(self).wf(),
            request_created_post(
                *old(self),
                *final(self),
                r@,
                conn_id@,
                request_id,
                input_type,
                message,
                options,
                context,
                timeout,
                now@,
                fresh_id@,
            ),
    {
        let ghost request_id0 = request_id;
        let ghost message0 = message;
        let ghost options0 = options;
        let rid: String = match request_id {
            Option::Some(s) => s,
            Option::None => fresh_id.to_owned(),
        };
        let agent_name: String = match self.registry.lookup(conn_id) {
            Option::Some(c) => match c.agent {
                Option::Some(a) => a.name,
                Option::None => "Unknown Agent".to_owned(),
            },
            Option::None => "Unknown Agent".to_owned(),
        };
        let rt = request_type_from(&input_type);
        let msg: String = match message {
            Option::Some(m) => m,
            Option::None => String::new(),
        };
        let opts: Vec<String> = match options {
            Option::Some(v) => v,
            Option::None => Vec::new(),
        };
        let secs: u32 = match timeout {
            Option::Some(t) => (t % 0x100000000) as u32,
            Option::None => 300,
        };
        let created = self.tracker.create(
            rid,
            conn_id.to_owned(),
            agent_name,
            rt,
            msg,
            opts,
            context,
            secs,
            now.to_owned(),
        );
        match created {
            Option::None => Vec::new(),
            Option::Some(req) => {
                proof {
                    assert(self.tracker.requests@.drop_last() =~= old(self).tracker.requests@);
                }
                let data = encode_request(&req);
                let body = frame_event("human-input-request", data.as_str(), now);
                let mut effs: Vec<Effect> = Vec::new();
                effs.push(Effect::PersistRequest { request: req });
                let ghost pre = effs@;
                append_broadcast(&mut effs, &self.registry, body.as_str());
                proof {
                    assert(effs@[0] == pre[0]);
                }
                effs
            },
        }
    }

    /// Complete the pending request a `human-input-response` envelope
    /// answers, and push the answer straight to the owning agent.
    pub fn handle_human_input_response(
        &mut self,
        request_id: Option<String>,
        response: Option<String>,
        additional_context: String,
        now: &str,
    ) -> (r: Vec<Effect>)
        requires
            old(self).wf(),
        ensures
            final(self).wf(),
            response_routed_post(
                *old(self),
                *final(self),
                r@,
                request_id,
                response,
                additional_context,
                now@,
            ),
    {
        let rid: String = match request_id {
            Option::Some(s) => s,
            Option::None => String::new(),
        };
        let resp: String = match response {
            Option::Some(s) => s,
            Option::None => String::new(),
        };
        let completed = self.tracker.complete(rid.as_str());
        match completed {
            Option::None => Vec::new(),
            Option::Some(aid) => {
                let known = self.registry.lookup(aid.as_str());
                match known {
                    Option::Some(_) => {
                        let text = encode_response(
                            rid.as_str(),
                            resp.as_str(),
                            additional_context.as_str(),
                            now,
                        );
                        let mut effs: Vec<Effect> = Vec::new();
                        effs.push(Effect::Send { to: aid, text });
                        effs
                    },
                    Option::None => Vec::new(),
                }
            },
        }
    }
}

impl Hub {
    /// Register the connection `conn_id` as an operator. No acknowledgment
    /// and no fanout is owed for it.
    pub fn handle_gui_registration(&mut self, conn_id: &str) -> (r: Vec<Effect>)
        requires
            old(self).wf(),
        ensures
            final(self).wf(),
            gui_registered_post(*old(self), *final(self), r@, conn_id@),
    {
        let conn = Connection { id: conn_id.to_owned(), role: Role::Operator, agent: None };
        let _ok = self.registry.register(conn);
        proof {
            if !has_conn(old(self).registry.connections@, conn_id@) {
                assert(self.registry.connections@.drop_last() =~= old(
                    self,
                ).registry.connections@);
            }
        }
        Vec::new()
    }

    /// Forward a content envelope: wrap `data` with the content type and
    /// `now`, and push the same text to every operator.
    pub fn handle_content(&self, kind: ContentKind, data: String, now: &str) -> (r: Vec<Effect>)
        requires
            self.wf(),
        ensures
            content_post(*self, *self, r@, kind, data, now@),
    {
        let body = frame_event(content_type_str(&kind), data.as_str(), now);
        let mut effs: Vec<Effect> = Vec::new();
        append_broadcast(&mut effs, &self.registry, body.as_str());
        proof {
            assert(effs@.skip(0) =~= effs@);
        }
        effs
    }

    /// Dispatch one decoded envelope. Each recognized type has its effect
    /// stated by its handler's postcondition; an unrecognized type, or text
    /// that was not JSON, changes nothing and sends nothing, so the
    /// connection simply goes on.
    pub fn route(&mut self, conn_id: &str, env: Envelope, now: &str, fresh_id: &str) -> (r: Vec<
        Effect,
    >)
        requires
            old(self).wf(),
        ensures
            final(self).wf(),
            (env matches Envelope::RegisterAgent { name, metadata } ==> agent_registered_post(
                *old(self),
                *final(self),
                r@,
                conn_id@,
                name,
                metadata,
                now@,
            )),
            env is RegisterGui ==> gui_registered_post(*old(self), *final(self), r@, conn_id@),
            (env matches Envelope::AgentMessage { id, payload } ==> agent_message_post(
                *old(self),
                *final(self),
                r@,
                conn_id@,
                id,
                payload,
                now@,
                fresh_id@,
            )),
            (env matches Envelope::HumanInputRequest {
                request_id,
                input_type,
                message,
                options,
                context,
                timeout,
            } ==> request_created_post(
                *old(self),
                *final(self),
                r@,
                conn_id@,
                request_id,
                input_type,
                message,
                options,
                context,
                timeout,
                now@,
                fresh_id@,
            )),
            (env matches Envelope::HumanInputResponse {
                request_id,
                response,
                additional_context,
            } ==> response_routed_post(
                *old(self),
                *final(self),
                r@,
                request_id,
                response,
                additional_context,
                now@,
            )),
            (env matches Envelope::Content { kind, data } ==> content_post(
                *old(self),
                *final(self),
                r@,
                kind,
                data,
                now@,
            )),
            env is Unknown ==> *final(self) == *old(self) && r@.len() == 0,
            env is Invalid ==> *final(self) == *old(self) && r@.len() == 0,
    {
        match env {
            Envelope::RegisterAgent { name, metadata } => self.handle_agent_registration(
                conn_id,
                name,
                metadata,
                now,
            ),
            Envelope::RegisterGui => self.handle_gui_registration(conn_id),
            Envelope::AgentMessage { id, payload } => self.handle_agent_message(
                conn_id,
                id,
                payload,
                now,
                fresh_id,
            ),
            Envelope::HumanInputRequest {
                request_id,
                input_type,
                message,
                options,
                context,
                timeout,
            } => self.handle_human_input_request(
                conn_id,
                request_id,
                input_type,
                message,
                options,
                context,
                timeout,
                now,
                fresh_id,
            ),
            Envelope::HumanInputResponse { request_id, response, additional_context } => self
                .handle_human_input_response(request_id, response, additional_context, now),
            Envelope::Content { kind, data } => self.handle_content(kind, data, now),
            Envelope::Unknown { message_type: _ } => Vec::new(),
            Envelope::Invalid => Vec::new(),
        }
    }

    /// Decode one raw socket message, stamp it with the clock and a fresh
    /// identifier, and dispatch it. Whatever the clock and the identifier
    /// turn out to be, the hub stays well-formed; text that is not JSON
    /// changes nothing and sends nothing.
    pub fn handle_message(&mut self, conn_id: &str, text: &str) -> (r: Vec<Effect>)
        requires
            old(self).wf(),
        ensures
            final(self).wf(),
            !json_ok(text@) ==> *final(self) == *old(self) && r@.len() == 0,
    {
        let now = now_rfc3339();
        let fresh = fresh_uuid();
        let env = decode_envelope(text);
        self.route(conn_id, env, now.as_str(), fresh.as_str())
    }

    /// Drop the connection `conn_id` after its socket closed or failed: it
    /// leaves the registry, and the departure of an agent is fanned out to
    /// the operators exactly once.
    pub fn disconnect(&mut self, conn_id: &str, now: &str) -> (r: Vec<Effect>)
        requires
            old(self).wf(),
        ensures
            final(self).wf(),
            disconnect_post(*old(self), *final(self), r@, conn_id@, now@),
    {
        let removed = self.registry.unregister(conn_id);
        match removed {
            Option::None => Vec::new(),
            Option::Some(c) => {
                match c.role {
                    Role::Operator => Vec::new(),
                    Role::Agent => {
                        let name: &str = match &c.agent {
                            Option::Some(a) => a.name.as_str(),
                            Option::None => "Unknown",
                        };
                        let data = encode_disconnect_data(conn_id, name);
                        let body = frame_event("agent-disconnected", data.as_str(), now);
                        let mut effs: Vec<Effect> = Vec::new();
                        append_broadcast(&mut effs, &self.registry, body.as_str());
                        proof {
                            assert(effs@.skip(0) =~= effs@);
                        }
                        effs
                    },
                }
            },
        }
    }
}

/// The one error the host API reports: no pending request matches the id.
#[derive(Clone, Copy, Debug, PartialEq, Eq, Structural)]
pub enum HubError {
    NotFound,
}

/// What a host-submitted response does on success: the pending request
/// alone turns `Completed`, the response — answered by `"human"` — goes to
/// the persistence gateway, and, when the owning agent is still connected,
/// the answer is pushed straight to it.
pub open spec fn submitted_post(
    hub0: Hub,
    hub1: Hub,
    effs: Seq<Effect>,
    request_id: Seq<char>,
    response_text: Seq<char>,
    additional_context: Option<String>,
    now: Seq<char>,
) -> bool {
    let i = req_index(hub0.tracker.requests@, request_id);
    let aid = hub0.tracker.requests@[i].agent_id@;
    &&& hub1.registry == hub0.registry
    &&& hub1.tracker.requests@ == completed_at(hub0.tracker.requests@, i)
    &&& effs.len() >= 1
    &&& (effs[0] matches Effect::PersistResponse { response } && response.request_id@
        == request_id && response.response@ == response_text && response.additional_context
        == additional_context && response.responded_by@ == "human"@ && response.timestamp@ == now)
    &&& if has_conn(hub0.registry.connections@, aid) {
        effs.len() == 2 && (effs[1] matches Effect::Send { to, text } && to@ == aid && text@
            == response_json(request_id, response_text, opt_text_json(additional_context), now))
    } else {
        effs.len() == 1
    }
}

impl Hub {
    /// Answer a pending request on an operator's behalf, through the host
    /// API: exactly one accepted response completes the request. With no
    /// pending request under the id, `NotFound` comes back and nothing is
    /// changed, persisted or sent.
    pub fn submit_human_response(
        &mut self,
        request_id: &str,
        response_text: &str,
        additional_context: Option<String>,
        now: &str,
    ) -> (r: Result<Vec<Effect>, HubError>)
        requires
            old(self).wf(),
        ensures
            final(self).wf(),
            r is Err <==> !has_pending(old(self).tracker.requests@, request_id@),
            r is Err ==> *final(self) == *old(self) && r == Result::<Vec<Effect>, HubError>::Err(
                HubError::NotFound,
            ),
            (r matches Ok(effs) ==> submitted_post(
                *old(self),
                *final(self),
                effs@,
                request_id@,
                response_text@,
                additional_context,
                now@,
            )),
    {
        let ghost ctx0 = additional_context;
        let completed = self.tracker.complete(request_id);
        match completed {
            Option::None => Result::Err(HubError::NotFound),
            Option::Some(aid) => {
                let ctx_json = encode_opt_text(&additional_context);
                let hr = HumanResponse {
                    request_id: request_id.to_owned(),
                    response: response_text.to_owned(),
                    additional_context,
                    responded_by: "human".to_owned(),
                    timestamp: now.to_owned(),
                };
                let mut effs: Vec<Effect> = Vec::new();
                effs.push(Effect::PersistResponse { response: hr });
                let known = self.registry.lookup(aid.as_str());
                match known {
                    Option::Some(_) => {
                        let text = encode_response(
                            request_id,
                            response_text,
                            ctx_json.as_str(),
                            now,
                        );
                        effs.push(Effect::Send { to: aid, text });
                    },
                    Option::None => {},
                }
                Result::Ok(effs)
            },
        }
    }

    /// A snapshot of at most `limit` connected agents, in registration
    /// order.
    pub fn list_agents(&self, limit: usize) -> (r: Vec<Agent>)
        requires
            self.wf(),
        ensures
            r@ == if limit <= profiles(self.registry.connections@).len() {
                profiles(self.registry.connections@).take(limit as int)
            } else {
                profiles(self.registry.connections@)
            },
    {
        self.registry.list_agents(limit)
    }

    /// A snapshot of the most recent requests, newest first, at most
    /// `limit` of them.
    pub fn list_human_requests(&self, limit: usize) -> (r: Vec<HumanInputRequest>)
        requires
            self.wf(),
        ensures
            r@.len() == if limit <= self.tracker.requests@.len() {
                limit as int
            } else {
                self.tracker.requests@.len() as int
            },
            forall|k: int|
                0 <= k < r@.len() ==> req_eq(
                    #[trigger] r@[k],
                    self.tracker.requests@[self.tracker.requests@.len() - 1 - k],
                ),
    {
        self.tracker.list_recent(limit)
    }
}

/// One accepted response per request: once a response for `request_id` has
/// been accepted, no pending request with that id remains, so any further
/// completion attempt for it reports `NotFound` and sends nothing.
pub proof fn lemma_response_accepted_once(
    hub0: Hub,
    hub1: Hub,
    effs: Seq<Effect>,
    request_id: Seq<char>,
    response_text: Seq<char>,
    additional_context: Option<String>,
    now: Seq<char>,
)
    requires
        hub0.wf(),
        has_pending(hub0.tracker.requests@, request_id),
        submitted_post(hub0, hub1, effs, request_id, response_text, additional_context, now),
    ensures
        !has_pending(hub1.tracker.requests@, request_id),
{
    crate::tracker::lemma_complete_only_once(hub0.tracker.requests@, request_id);
}

/// Removing a connection of some role shrinks that role's sub-sequence by
/// exactly one.
pub proof fn lemma_remove_of_role(conns: Seq<Connection>, i: int, role: Role)
    requires
        0 <= i < conns.len(),
        conns[i].role == role,
    ensures
        of_role(conns.remove(i), role).len() == of_role(conns, role).len() - 1,
    decreases conns.len(),
{
    if i == conns.len() - 1 {
        assert(conns.remove(i) =~= conns.drop_last());
    } else {
        assert(conns.remove(i).drop_last() =~= conns.drop_last().remove(i));
        assert(conns.remove(i).last() == conns.last());
        lemma_remove_of_role(conns.drop_last(), i, role);
    }
}

/// Disconnecting a registered agent removes exactly one agent connection
/// from the registry, and what goes out is exactly one `agent-disconnected`
/// event, carrying that agent's id and name, delivered to each operator.
pub proof fn lemma_disconnect_removes_one_agent(
    hub0: Hub,
    hub1: Hub,
    effs: Seq<Effect>,
    conn_id: Seq<char>,
    now: Seq<char>,
)
    requires
        hub0.wf(),
        disconnect_post(hub0, hub1, effs, conn_id, now),
        has_conn(hub0.registry.connections@, conn_id),
        conn_of(hub0.registry.connections@, conn_id).role == Role::Agent,
    ensures
        of_role(hub1.registry.connections@, Role::Agent).len() == of_role(
            hub0.registry.connections@,
            Role::Agent,
        ).len() - 1,
        is_broadcast(
            effs,
            hub1.registry.connections@,
            event_frame(
                "agent-disconnected"@,
                disconnect_data_json(
                    conn_id,
                    departed_name(conn_of(hub0.registry.connections@, conn_id)),
                ),
                now,
            ),
        ),
{
    lemma_remove_of_role(
        hub0.registry.connections@,
        conn_index(hub0.registry.connections@, conn_id),
        Role::Agent,
    );
}

} // verus!
