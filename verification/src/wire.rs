//! The hub's outbound wire format: JSON text built character by character,
//! with the exact produced sequence stated in each function's contract.

use vstd::prelude::*;

use crate::ext::chars_to_string;
use crate::models::Agent;
use crate::models::AgentMessage;
use crate::models::AgentStatus;
use crate::models::HumanInputRequest;
use crate::models::RequestPriority;
use crate::models::RequestStatus;
use crate::models::RequestType;

verus! {

/// The hexadecimal digit character for `n`, which must lie in `0..16`.
pub open spec fn hex_digit(n: int) -> char {
    if n == 0 {
        '0'
    } else if n == 1 {
        '1'
    } else if n == 2 {
        '2'
    } else if n == 3 {
        '3'
    } else if n == 4 {
        '4'
    } else if n == 5 {
        '5'
    } else if n == 6 {
        '6'
    } else if n == 7 {
        '7'
    } else if n == 8 {
        '8'
    } else if n == 9 {
        '9'
    } else if n == 10 {
        'a'
    } else if n == 11 {
        'b'
    } else if n == 12 {
        'c'
    } else if n == 13 {
        'd'
    } else if n == 14 {
        'e'
    } else {
        'f'
    }
}

/// How one character is written inside a JSON string literal.
pub open spec fn escaped_char(c: char) -> Seq<char> {
    if c == '"' {
        seq!['\\', '"']
    } else if c == '\\' {
        seq!['\\', '\\']
    } else if c == '\n' {
        seq!['\\', 'n']
    } else if c == '\r' {
        seq!['\\', 'r']
    } else if c == '\t' {
        seq!['\\', 't']
    } else if (c as u32) < 32 {
        seq!['\\', 'u', '0', '0', hex_digit((c as u32) as int / 16), hex_digit((c as u32) as int % 16)]
    } else {
        seq![c]
    }
}

/// The body of a JSON string literal holding the text `s`.
pub open spec fn json_escaped(s: Seq<char>) -> Seq<char>
    decreases s.len(),
{
    if s.len() == 0 {
        Seq::empty()
    } else {
        json_escaped(s.drop_last()) + escaped_char(s.last())
    }
}

/// A complete JSON string literal holding the text `s`.
pub open spec fn json_quoted(s: Seq<char>) -> Seq<char> {
    seq!['"'] + json_escaped(s) + seq!['"']
}

/// The decimal notation of `n`.
pub open spec fn dec_str(n: nat) -> Seq<char>
    decreases n,
{
    if n < 10 {
        seq![hex_digit(n as int)]
    } else {
        dec_str(n / 10).push(hex_digit((n % 10) as int))
    }
}

/// The hexadecimal digit character for `n`, which must lie below 16.
fn hex_digit_char(n: u32) -> (r: char)
    requires
        n < 16,
    ensures
        r == hex_digit(n as int),
{
    if n == 0 {
        '0'
    } else if n == 1 {
        '1'
    } else if n == 2 {
        '2'
    } else if n == 3 {
        '3'
    } else if n == 4 {
        '4'
    } else if n == 5 {
        '5'
    } else if n == 6 {
        '6'
    } else if n == 7 {
        '7'
    } else if n == 8 {
        '8'
    } else if n == 9 {
        '9'
    } else if n == 10 {
        'a'
    } else if n == 11 {
        'b'
    } else if n == 12 {
        'c'
    } else if n == 13 {
        'd'
    } else if n == 14 {
        'e'
    } else {
        'f'
    }
}

/// Append one character of a JSON string literal body.
fn push_escaped_char(out: &mut Vec<char>, c: char)
    ensures
        final(out)@ == old(out)@ + escaped_char(c),
{
    if c == '"' {
        out.push('\\');
        out.push('"');
    } else if c == '\\' {
        out.push('\\');
        out.push('\\');
    } else if c == '\n' {
        out.push('\\');
        out.push('n');
    } else if c == '\r' {
        out.push('\\');
        out.push('r');
    } else if c == '\t' {
        out.push('\\');
        out.push('t');
    } else if (c as u32) < 32 {
        out.push('\\');
        out.push('u');
        out.push('0');
        out.push('0');
        out.push(hex_digit_char((c as u32) / 16));
        out.push(hex_digit_char((c as u32) % 16));
    } else {
        out.push(c);
    }
    proof {
        assert(out@ =~= old(out)@ + escaped_char(c));
    }
}

/// Append the text of `s` verbatim.
fn push_literal(out: &mut Vec<char>, s: &str)
    ensures
        final(out)@ == old(out)@ + s@,
{
    let n = s.unicode_len();
    for i in 0..n
        invariant
            n == s@.len(),
            out@ == old(out)@ + s@.take(i as int),
    {
        out.push(s.get_char(i));
        proof {
            assert(out@ =~= old(out)@ + s@.take(i + 1 as int));
        }
    }
    proof {
        assert(s@.take(n as int) =~= s@);
    }
}

/// Append the body of a JSON string literal holding the text of `s`.
fn push_escaped(out: &mut Vec<char>, s: &str)
    ensures
        final(out)@ == old(out)@ + json_escaped(s@),
{
    let n = s.unicode_len();
    for i in 0..n
        invariant
            n == s@.len(),
            out@ == old(out)@ + json_escaped(s@.take(i as int)),
    {
        push_escaped_char(out, s.get_char(i));
        proof {
            assert(s@.take(i + 1 as int).drop_last() =~= s@.take(i as int));
            assert(s@.take(i + 1 as int).last() == s@[i as int]);
            assert(out@ =~= old(out)@ + json_escaped(s@.take(i + 1 as int)));
        }
    }
    proof {
        assert(s@.take(n as int) =~= s@);
    }
}

/// Append a complete JSON string literal holding the text of `s`.
fn push_quoted(out: &mut Vec<char>, s: &str)
    ensures
        final(out)@ == old(out)@ + json_quoted(s@),
{
    out.push('"');
    push_escaped(out, s);
    out.push('"');
    proof {
        assert(out@ =~= old(out)@ + json_quoted(s@));
    }
}

/// Append the decimal notation of `n`.
fn push_u32_decimal(out: &mut Vec<char>, n: u32)
    ensures
        final(out)@ == old(out)@ + dec_str(n as nat),
    decreases n,
{
    if n >= 10 {
        push_u32_decimal(out, n / 10);
    }
    out.push(hex_digit_char(n % 10));
    proof {
        assert(out@ =~= old(out)@ + dec_str(n as nat));
    }
}

/// The JSON value written for an optional field that already holds
/// serialized JSON: the text itself, or `null` when absent.
pub open spec fn opt_raw_json(m: Option<String>) -> Seq<char> {
    match m {
        Option::Some(s) => s@,
        Option::None => "null"@,
    }
}

/// Append `opt_raw_json(*m)`.
fn push_opt_raw(out: &mut Vec<char>, m: &Option<String>)
    ensures
        final(out)@ == old(out)@ + opt_raw_json(*m),
{
    match m {
        Option::Some(s) => push_literal(out, s.as_str()),
        Option::None => push_literal(out, "null"),
    }
}

/// The elements of a JSON array of strings, without the brackets.
pub open spec fn strings_json(opts: Seq<String>) -> Seq<char>
    decreases opts.len(),
{
    if opts.len() == 0 {
        Seq::empty()
    } else if opts.len() == 1 {
        json_quoted(opts[0]@)
    } else {
        strings_json(opts.drop_last()) + seq![','] + json_quoted(opts.last()@)
    }
}

/// A JSON array holding the strings of `opts`, in order.
pub open spec fn strings_array_json(opts: Seq<String>) -> Seq<char> {
    seq!['['] + strings_json(opts) + seq![']']
}

/// Append a JSON array holding the strings of `opts`.
fn push_string_array(out: &mut Vec<char>, opts: &Vec<String>)
    ensures
        final(out)@ == old(out)@ + strings_array_json(opts@),
{
    out.push('[');
    let n = opts.len();
    for i in 0..n
        invariant
            n == opts@.len(),
            out@ == old(out)@ + seq!['['] + strings_json(opts@.take(i as int)),
    {
        if i > 0 {
            out.push(',');
        }
        push_quoted(out, opts[i].as_str());
        proof {
            assert(opts@.take(i + 1 as int).drop_last() =~= opts@.take(i as int));
            assert(opts@.take(i + 1 as int).last() == opts@[i as int]);
            if i == 0 {
                assert(opts@.take(1).len() == 1);
                assert(opts@.take(1)[0] == opts@[0]);
            }
            assert(out@ =~= old(out)@ + seq!['['] + strings_json(opts@.take(i + 1 as int)));
        }
    }
    out.push(']');
    proof {
        assert(opts@.take(n as int) =~= opts@);
        assert(out@ =~= old(out)@ + strings_array_json(opts@));
    }
}

/// The name an agent status goes by on the wire.
pub open spec fn status_wire(s: AgentStatus) -> Seq<char> {
    match s {
        AgentStatus::Connected => "Connected"@,
        AgentStatus::Active => "Active"@,
        AgentStatus::Disconnected => "Disconnected"@,
    }
}

/// The name a request type goes by on the wire.
pub open spec fn request_type_wire(t: RequestType) -> Seq<char> {
    match t {
        RequestType::Input => "Input"@,
        RequestType::Approval => "Approval"@,
        RequestType::Choice => "Choice"@,
        RequestType::Confirmation => "Confirmation"@,
        RequestType::Text => "Text"@,
    }
}

/// The name a request status goes by on the wire.
pub open spec fn request_status_wire(s: RequestStatus) -> Seq<char> {
    match s {
        RequestStatus::Pending => "Pending"@,
        RequestStatus::Completed => "Completed"@,
        RequestStatus::Timeout => "Timeout"@,
    }
}

/// The name a priority goes by on the wire.
pub open spec fn priority_wire(p: RequestPriority) -> Seq<char> {
    match p {
        RequestPriority::Low => "Low"@,
        RequestPriority::Medium => "Medium"@,
        RequestPriority::High => "High"@,
        RequestPriority::Critical => "Critical"@,
    }
}

fn status_wire_str(s: &AgentStatus) -> (r: &'static str)
    ensures
        r@ == status_wire(*s),
{
    match s {
        AgentStatus::Connected => "Connected",
        AgentStatus::Active => "Active",
        AgentStatus::Disconnected => "Disconnected",
    }
}

fn request_type_wire_str(t: &RequestType) -> (r: &'static str)
    ensures
        r@ == request_type_wire(*t),
{
    match t {
        RequestType::Input => "Input",
        RequestType::Approval => "Approval",
        RequestType::Choice => "Choice",
        RequestType::Confirmation => "Confirmation",
        RequestType::Text => "Text",
    }
}

fn request_status_wire_str(s: &RequestStatus) -> (r: &'static str)
    ensures
        r@ == request_status_wire(*s),
{
    match s {
        RequestStatus::Pending => "Pending",
        RequestStatus::Completed => "Completed",
        RequestStatus::Timeout => "Timeout",
    }
}

fn priority_wire_str(p: &RequestPriority) -> (r: &'static str)
    ensures
        r@ == priority_wire(*p),
{
    match p {
        RequestPriority::Low => "Low",
        RequestPriority::Medium => "Medium",
        RequestPriority::High => "High",
        RequestPriority::Critical => "Critical",
    }
}

/// The JSON object written for an agent.
pub open spec fn agent_json(a: Agent) -> Seq<char> {
    "{\"id\":"@ + json_quoted(a.id@) + ",\"name\":"@ + json_quoted(a.name@) + ",\"status\":"@
        + json_quoted(status_wire(a.status)) + ",\"connected_at\":"@ + json_quoted(a.connected_at@)
        + ",\"last_activity\":"@ + json_quoted(a.last_activity@) + ",\"metadata\":"@ + opt_raw_json(
        a.metadata,
    ) + "}"@
}

/// Write the JSON object for an agent.
pub fn encode_agent(a: &Agent) -> (r: String)
    ensures
        r@ == agent_json(*a),
{
    let mut out: Vec<char> = Vec::new();
    push_literal(&mut out, "{\"id\":");
    push_quoted(&mut out, a.id.as_str());
    push_literal(&mut out, ",\"name\":");
    push_quoted(&mut out, a.name.as_str());
    push_literal(&mut out, ",\"status\":");
    push_quoted(&mut out, status_wire_str(&a.status));
    push_literal(&mut out, ",\"connected_at\":");
    push_quoted(&mut out, a.connected_at.as_str());
    push_literal(&mut out, ",\"last_activity\":");
    push_quoted(&mut out, a.last_activity.as_str());
    push_literal(&mut out, ",\"metadata\":");
    push_opt_raw(&mut out, &a.metadata);
    push_literal(&mut out, "}");
    proof {
        assert(out@ =~= agent_json(*a));
    }
    chars_to_string(&out)
}

/// The JSON object written for an agent message.
pub open spec fn agent_message_json(m: AgentMessage) -> Seq<char> {
    "{\"id\":"@ + json_quoted(m.id@) + ",\"agent_id\":"@ + json_quoted(m.agent_id@)
        + ",\"message_type\":"@ + json_quoted(m.message_type@) + ",\"payload\":"@ + m.payload@
        + ",\"timestamp\":"@ + json_quoted(m.timestamp@) + "}"@
}

/// Write the JSON object for an agent message.
pub fn encode_agent_message(m: &AgentMessage) -> (r: String)
    ensures
        r@ == agent_message_json(*m),
{
    let mut out: Vec<char> = Vec::new();
    push_literal(&mut out, "{\"id\":");
    push_quoted(&mut out, m.id.as_str());
    push_literal(&mut out, ",\"agent_id\":");
    push_quoted(&mut out, m.agent_id.as_str());
    push_literal(&mut out, ",\"message_type\":");
    push_quoted(&mut out, m.message_type.as_str());
    push_literal(&mut out, ",\"payload\":");
    push_literal(&mut out, m.payload.as_str());
    push_literal(&mut out, ",\"timestamp\":");
    push_quoted(&mut out, m.timestamp.as_str());
    push_literal(&mut out, "}");
    proof {
        assert(out@ =~= agent_message_json(*m));
    }
    chars_to_string(&out)
}

/// The JSON object written for a human-input request.
pub open spec fn request_json(r: HumanInputRequest) -> Seq<char> {
    "{\"id\":"@ + json_quoted(r.id@) + ",\"agent_id\":"@ + json_quoted(r.agent_id@)
        + ",\"agent_name\":"@ + json_quoted(r.agent_name@) + ",\"request_type\":"@ + json_quoted(
        request_type_wire(r.request_type),
    ) + ",\"message\":"@ + json_quoted(r.message@) + ",\"options\":"@ + strings_array_json(
        r.options@,
    ) + ",\"context\":"@ + opt_raw_json(r.context) + ",\"timeout_seconds\":"@ + dec_str(
        r.timeout_seconds as nat,
    ) + ",\"timestamp\":"@ + json_quoted(r.timestamp@) + ",\"status\":"@ + json_quoted(
        request_status_wire(r.status),
    ) + ",\"priority\":"@ + json_quoted(priority_wire(r.priority)) + "}"@
}

/// Write the JSON object for a human-input request.
pub fn encode_request(r: &HumanInputRequest) -> (res: String)
    ensures
        res@ == request_json(*r),
{
    let mut out: Vec<char> = Vec::new();
    push_literal(&mut out, "{\"id\":");
    push_quoted(&mut out, r.id.as_str());
    push_literal(&mut out, ",\"agent_id\":");
    push_quoted(&mut out, r.agent_id.as_str());
    push_literal(&mut out, ",\"agent_name\":");
    push_quoted(&mut out, r.agent_name.as_str());
    push_literal(&mut out, ",\"request_type\":");
    push_quoted(&mut out, request_type_wire_str(&r.request_type));
    push_literal(&mut out, ",\"message\":");
    push_quoted(&mut out, r.message.as_str());
    push_literal(&mut out, ",\"options\":");
    push_string_array(&mut out, &r.options);
    push_literal(&mut out, ",\"context\":");
    push_opt_raw(&mut out, &r.context);
    push_literal(&mut out, ",\"timeout_seconds\":");
    push_u32_decimal(&mut out, r.timeout_seconds);
    push_literal(&mut out, ",\"timestamp\":");
    push_quoted(&mut out, r.timestamp.as_str());
    push_literal(&mut out, ",\"status\":");
    push_quoted(&mut out, request_status_wire_str(&r.status));
    push_literal(&mut out, ",\"priority\":");
    push_quoted(&mut out, priority_wire_str(&r.priority));
    push_literal(&mut out, "}");
    proof {
        assert(out@ =~= request_json(*r));
    }
    chars_to_string(&out)
}

/// The envelope sent to every operator for one event: the event name, the
/// event's data (already serialized) and a timestamp.
pub open spec fn event_frame(event: Seq<char>, data: Seq<char>, ts: Seq<char>) -> Seq<char> {
    "{\"type\":"@ + json_quoted(event) + ",\"data\":"@ + data + ",\"timestamp\":"@ + json_quoted(
        ts,
    ) + "}"@
}

/// Write the envelope for one event.
pub fn frame_event(event: &str, data_json: &str, ts: &str) -> (r: String)
    ensures
        r@ == event_frame(event@, data_json@, ts@),
{
    let mut out: Vec<char> = Vec::new();
    push_literal(&mut out, "{\"type\":");
    push_quoted(&mut out, event);
    push_literal(&mut out, ",\"data\":");
    push_literal(&mut out, data_json);
    push_literal(&mut out, ",\"timestamp\":");
    push_quoted(&mut out, ts);
    push_literal(&mut out, "}");
    proof {
        assert(out@ =~= event_frame(event@, data_json@, ts@));
    }
    chars_to_string(&out)
}

/// The acknowledgment sent back to an agent right after registration.
pub open spec fn ack_json(agent_id: Seq<char>, server_time: Seq<char>) -> Seq<char> {
    "{\"type\":\"registration-ack\",\"success\":true,\"agentId\":"@ + json_quoted(agent_id)
        + ",\"serverTime\":"@ + json_quoted(server_time) + "}"@
}

/// Write the registration acknowledgment.
pub fn encode_ack(agent_id: &str, server_time: &str) -> (r: String)
    ensures
        r@ == ack_json(agent_id@, server_time@),
{
    let mut out: Vec<char> = Vec::new();
    push_literal(&mut out, "{\"type\":\"registration-ack\",\"success\":true,\"agentId\":");
    push_quoted(&mut out, agent_id);
    push_literal(&mut out, ",\"serverTime\":");
    push_quoted(&mut out, server_time);
    push_literal(&mut out, "}");
    proof {
        assert(out@ =~= ack_json(agent_id@, server_time@));
    }
    chars_to_string(&out)
}

/// The message pushed directly to an agent when its request is answered.
/// `ctx` is the JSON already chosen for the `additionalContext` field.
pub open spec fn response_json(
    request_id: Seq<char>,
    response: Seq<char>,
    ctx: Seq<char>,
    ts: Seq<char>,
) -> Seq<char> {
    "{\"type\":\"human-input-response\",\"requestId\":"@ + json_quoted(request_id)
        + ",\"response\":"@ + json_quoted(response) + ",\"additionalContext\":"@ + ctx
        + ",\"timestamp\":"@ + json_quoted(ts) + "}"@
}

/// Write the direct response message for an answered request.
pub fn encode_response(request_id: &str, response: &str, ctx_json: &str, ts: &str) -> (r: String)
    ensures
        r@ == response_json(request_id@, response@, ctx_json@, ts@),
{
    let mut out: Vec<char> = Vec::new();
    push_literal(&mut out, "{\"type\":\"human-input-response\",\"requestId\":");
    push_quoted(&mut out, request_id);
    push_literal(&mut out, ",\"response\":");
    push_quoted(&mut out, response);
    push_literal(&mut out, ",\"additionalContext\":");
    push_literal(&mut out, ctx_json);
    push_literal(&mut out, ",\"timestamp\":");
    push_quoted(&mut out, ts);
    push_literal(&mut out, "}");
    proof {
        assert(out@ =~= response_json(request_id@, response@, ctx_json@, ts@));
    }
    chars_to_string(&out)
}

/// The data object of an `agent-disconnected` event.
pub open spec fn disconnect_data_json(agent_id: Seq<char>, name: Seq<char>) -> Seq<char> {
    "{\"agentId\":"@ + json_quoted(agent_id) + ",\"name\":"@ + json_quoted(name) + "}"@
}

/// Write the data object of an `agent-disconnected` event.
pub fn encode_disconnect_data(agent_id: &str, name: &str) -> (r: String)
    ensures
        r@ == disconnect_data_json(agent_id@, name@),
{
    let mut out: Vec<char> = Vec::new();
    push_literal(&mut out, "{\"agentId\":");
    push_quoted(&mut out, agent_id);
    push_literal(&mut out, ",\"name\":");
    push_quoted(&mut out, name);
    push_literal(&mut out, "}");
    proof {
        assert(out@ =~= disconnect_data_json(agent_id@, name@));
    }
    chars_to_string(&out)
}

/// A JSON string literal as its own value, used for an optional plain-text
/// field: the quoted text, or `null` when absent.
pub open spec fn opt_text_json(m: Option<String>) -> Seq<char> {
    match m {
        Option::Some(s) => json_quoted(s@),
        Option::None => "null"@,
    }
}

/// Write `opt_text_json(*m)`.
pub fn encode_opt_text(m: &Option<String>) -> (r: String)
    ensures
        r@ == opt_text_json(*m),
{
    let mut out: Vec<char> = Vec::new();
    match m {
        Option::Some(s) => push_quoted(&mut out, s.as_str()),
        Option::None => push_literal(&mut out, "null"),
    }
    chars_to_string(&out)
}

} // verus!
