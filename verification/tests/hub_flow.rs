use agent_hub::envelope::ContentKind;
use agent_hub::envelope::Envelope;
use agent_hub::envelope::decode_envelope;
use agent_hub::models::AgentStatus;
use agent_hub::models::RequestPriority;
use agent_hub::models::RequestStatus;
use agent_hub::models::RequestType;
use agent_hub::registry::Role;
use agent_hub::router::Effect;
use agent_hub::router::Hub;
use agent_hub::router::HubError;
use agent_hub::tracker::RequestTracker;

fn send_of(e: &Effect) -> (&str, &str) {
    match e {
        Effect::Send { to, text } => (to, text),
        other => panic!("expected a Send effect, got another: {}", describe(other)),
    }
}

fn describe(e: &Effect) -> &'static str {
    match e {
        Effect::Send { .. } => "Send",
        Effect::PersistAgent { .. } => "PersistAgent",
        Effect::PersistRequest { .. } => "PersistRequest",
        Effect::PersistResponse { .. } => "PersistResponse",
    }
}

fn register_builder(hub: &mut Hub) {
    let effs = hub.route(
        "agent-1",
        Envelope::RegisterAgent { name: Some("Builder".to_string()), metadata: None },
        "T1",
        "f-0",
    );
    assert!(effs.len() >= 2);
}

#[test]
fn scenario_register_request_respond() {
    let mut hub = Hub::new();
    let effs = hub.route("op-1", Envelope::RegisterGui, "T0", "f-0");
    assert!(effs.is_empty());

    // agent connects with register-agent{name:"Builder"}
    let effs = hub.route(
        "agent-1",
        Envelope::RegisterAgent { name: Some("Builder".to_string()), metadata: None },
        "T1",
        "f-1",
    );
    assert_eq!(effs.len(), 3);
    match &effs[0] {
        Effect::PersistAgent { agent } => {
            assert_eq!(agent.id, "agent-1");
            assert_eq!(agent.name, "Builder");
            assert!(matches!(agent.status, AgentStatus::Connected));
        },
        other => panic!("expected PersistAgent, got {}", describe(other)),
    }
    let (to, text) = send_of(&effs[1]);
    assert_eq!(to, "agent-1");
    assert_eq!(
        text,
        "{\"type\":\"registration-ack\",\"success\":true,\"agentId\":\"agent-1\",\
         \"serverTime\":\"T1\"}"
    );
    let (to, text) = send_of(&effs[2]);
    assert_eq!(to, "op-1");
    assert_eq!(
        text,
        "{\"type\":\"agent-connected\",\"data\":{\"id\":\"agent-1\",\"name\":\"Builder\",\
         \"status\":\"Connected\",\"connected_at\":\"T1\",\"last_activity\":\"T1\",\
         \"metadata\":null},\"timestamp\":\"T1\"}"
    );

    // the agent asks for approval
    let effs = hub.route(
        "agent-1",
        Envelope::HumanInputRequest {
            request_id: Some("req-1".to_string()),
            input_type: Some("approval".to_string()),
            message: Some("Deploy to prod?".to_string()),
            options: None,
            context: None,
            timeout: None,
        },
        "T2",
        "f-2",
    );
    assert_eq!(effs.len(), 2);
    match &effs[0] {
        Effect::PersistRequest { request } => {
            assert_eq!(request.id, "req-1");
            assert_eq!(request.agent_name, "Builder");
            assert!(matches!(request.priority, RequestPriority::High));
            assert!(matches!(request.status, RequestStatus::Pending));
            assert!(matches!(request.request_type, RequestType::Approval));
            assert_eq!(request.timeout_seconds, 300);
        },
        other => panic!("expected PersistRequest, got {}", describe(other)),
    }
    let (to, text) = send_of(&effs[1]);
    assert_eq!(to, "op-1");
    assert!(text.starts_with("{\"type\":\"human-input-request\",\"data\":{\"id\":\"req-1\""));

    // the operator answers "yes" through the host API
    let effs = hub.submit_human_response("req-1", "yes", None, "T3").unwrap();
    assert_eq!(effs.len(), 2);
    match &effs[0] {
        Effect::PersistResponse { response } => {
            assert_eq!(response.request_id, "req-1");
            assert_eq!(response.response, "yes");
            assert_eq!(response.responded_by, "human");
        },
        other => panic!("expected PersistResponse, got {}", describe(other)),
    }
    let (to, text) = send_of(&effs[1]);
    assert_eq!(to, "agent-1");
    assert_eq!(
        text,
        "{\"type\":\"human-input-response\",\"requestId\":\"req-1\",\"response\":\"yes\",\
         \"additionalContext\":null,\"timestamp\":\"T3\"}"
    );

    // the request is now completed
    let requests = hub.list_human_requests(10);
    assert_eq!(requests.len(), 1);
    assert!(matches!(requests[0].status, RequestStatus::Completed));
}

#[test]
fn second_completion_is_not_found() {
    let mut hub = Hub::new();
    register_builder(&mut hub);
    let effs = hub.route(
        "agent-1",
        Envelope::HumanInputRequest {
            request_id: Some("req-1".to_string()),
            input_type: None,
            message: None,
            options: None,
            context: None,
            timeout: None,
        },
        "T2",
        "f-2",
    );
    assert_eq!(effs.len(), 1);
    assert!(hub.submit_human_response("req-1", "ok", None, "T3").is_ok());
    // a second completion attempt fails and produces no second direct-send
    let second = hub.submit_human_response("req-1", "ok again", None, "T4");
    assert!(matches!(second, Err(HubError::NotFound)));
    // the websocket path drops it the same way
    let effs = hub.route(
        "op-1",
        Envelope::HumanInputResponse {
            request_id: Some("req-1".to_string()),
            response: Some("late".to_string()),
            additional_context: "null".to_string(),
        },
        "T5",
        "f-5",
    );
    assert!(effs.is_empty());
}

#[test]
fn response_to_unknown_request_is_not_found() {
    let mut hub = Hub::new();
    assert!(matches!(
        hub.submit_human_response("nope", "yes", None, "T1"),
        Err(HubError::NotFound)
    ));
}

#[test]
fn duplicate_request_id_is_refused() {
    let mut hub = Hub::new();
    register_builder(&mut hub);
    let req = Envelope::HumanInputRequest {
        request_id: Some("req-1".to_string()),
        input_type: None,
        message: None,
        options: None,
        context: None,
        timeout: None,
    };
    let effs = hub.route("agent-1", req, "T2", "f-2");
    assert_eq!(effs.len(), 1);
    let again = Envelope::HumanInputRequest {
        request_id: Some("req-1".to_string()),
        input_type: None,
        message: None,
        options: None,
        context: None,
        timeout: None,
    };
    let effs = hub.route("agent-1", again, "T3", "f-3");
    assert!(effs.is_empty());
    assert_eq!(hub.list_human_requests(10).len(), 1);
}

#[test]
fn tracker_ids_stay_unique() {
    let mut t = RequestTracker::new();
    let first = t.create(
        "a".to_string(),
        "agent-1".to_string(),
        "n".to_string(),
        RequestType::Input,
        "m".to_string(),
        Vec::new(),
        None,
        300,
        "T1".to_string(),
    );
    assert!(first.is_some());
    let dup = t.create(
        "a".to_string(),
        "agent-2".to_string(),
        "n".to_string(),
        RequestType::Input,
        "m".to_string(),
        Vec::new(),
        None,
        300,
        "T2".to_string(),
    );
    assert!(dup.is_none());
    assert_eq!(t.list_recent(10).len(), 1);
}

#[test]
fn disconnect_removes_one_agent_and_fans_out_once() {
    let mut hub = Hub::new();
    let _ = hub.route("op-1", Envelope::RegisterGui, "T0", "f-0");
    register_builder(&mut hub);
    assert_eq!(hub.list_agents(10).len(), 1);
    let effs = hub.disconnect("agent-1", "T9");
    assert_eq!(hub.list_agents(10).len(), 0);
    assert_eq!(effs.len(), 1);
    let (to, text) = send_of(&effs[0]);
    assert_eq!(to, "op-1");
    assert_eq!(
        text,
        "{\"type\":\"agent-disconnected\",\"data\":{\"agentId\":\"agent-1\",\
         \"name\":\"Builder\"},\"timestamp\":\"T9\"}"
    );
    // disconnecting again changes nothing
    let effs = hub.disconnect("agent-1", "T10");
    assert!(effs.is_empty());
}

#[test]
fn operator_disconnect_fans_out_nothing() {
    let mut hub = Hub::new();
    let _ = hub.route("op-1", Envelope::RegisterGui, "T0", "f-0");
    let effs = hub.disconnect("op-1", "T1");
    assert!(effs.is_empty());
}

#[test]
fn broadcast_without_operators_delivers_to_nobody() {
    let mut hub = Hub::new();
    register_builder(&mut hub);
    let effs = hub.route(
        "agent-1",
        Envelope::Content { kind: ContentKind::Markdown, data: "\"# hi\"".to_string() },
        "T2",
        "f-2",
    );
    assert!(effs.is_empty());
    // an agent-update broadcast with no operators delivers to nobody either
    let effs = hub.route(
        "agent-1",
        Envelope::AgentMessage { id: None, payload: "{\"p\":1}".to_string() },
        "T3",
        "f-3",
    );
    assert!(effs.is_empty());
}

#[test]
fn agent_message_marks_agent_active_and_updates_operators() {
    let mut hub = Hub::new();
    let _ = hub.route("op-1", Envelope::RegisterGui, "T0", "f-0");
    register_builder(&mut hub);
    let effs = hub.route(
        "agent-1",
        Envelope::AgentMessage { id: Some("m-1".to_string()), payload: "{\"p\":1}".to_string() },
        "T2",
        "f-2",
    );
    assert_eq!(effs.len(), 1);
    let (to, text) = send_of(&effs[0]);
    assert_eq!(to, "op-1");
    assert_eq!(
        text,
        "{\"type\":\"agent-update\",\"data\":{\"id\":\"m-1\",\"agent_id\":\"agent-1\",\
         \"message_type\":\"agent-message\",\"payload\":{\"p\":1},\"timestamp\":\"T2\"},\
         \"timestamp\":\"T2\"}"
    );
    let agents = hub.list_agents(10);
    assert_eq!(agents.len(), 1);
    assert!(matches!(agents[0].status, AgentStatus::Active));
    assert_eq!(agents[0].last_activity, "T2");
}

#[test]
fn unknown_envelope_is_ignored_and_connection_goes_on() {
    let mut hub = Hub::new();
    let _ = hub.route("op-1", Envelope::RegisterGui, "T0", "f-0");
    register_builder(&mut hub);
    let env = decode_envelope("{\"type\":\"frobnicate\"}");
    assert!(matches!(env, Envelope::Unknown { .. }));
    let effs = hub.route("agent-1", env, "T2", "f-2");
    assert!(effs.is_empty());
    // later messages are still processed
    let effs = hub.route(
        "agent-1",
        Envelope::AgentMessage { id: Some("m-2".to_string()), payload: "null".to_string() },
        "T3",
        "f-3",
    );
    assert_eq!(effs.len(), 1);
}

#[test]
fn invalid_json_is_ignored() {
    let mut hub = Hub::new();
    register_builder(&mut hub);
    let env = decode_envelope("this is not json");
    assert!(matches!(env, Envelope::Invalid));
    let effs = hub.route("agent-1", env, "T2", "f-2");
    assert!(effs.is_empty());
    let effs = hub.handle_message("agent-1", "also { not json");
    assert!(effs.is_empty());
}

#[test]
fn decode_extracts_fields() {
    let env = decode_envelope(
        "{\"type\":\"register-agent\",\"name\":\"Builder\",\"metadata\":{\"v\":2}}",
    );
    match env {
        Envelope::RegisterAgent { name, metadata } => {
            assert_eq!(name.as_deref(), Some("Builder"));
            assert_eq!(metadata.as_deref(), Some("{\"v\":2}"));
        },
        _ => panic!("expected RegisterAgent"),
    }
    let env = decode_envelope(
        "{\"type\":\"human-input-request\",\"requestId\":\"r\",\"inputType\":\"choice\",\
         \"message\":\"pick\",\"options\":[\"a\",7,\"b\"],\"timeout\":60}",
    );
    match env {
        Envelope::HumanInputRequest { request_id, input_type, message, options, context, timeout } => {
            assert_eq!(request_id.as_deref(), Some("r"));
            assert_eq!(input_type.as_deref(), Some("choice"));
            assert_eq!(message.as_deref(), Some("pick"));
            assert_eq!(options, Some(vec!["a".to_string(), "b".to_string()]));
            assert_eq!(context, None);
            assert_eq!(timeout, Some(60));
        },
        _ => panic!("expected HumanInputRequest"),
    }
}

#[test]
fn handle_message_registers_through_the_clock() {
    let mut hub = Hub::new();
    let effs = hub.handle_message("agent-1", "{\"type\":\"register-agent\",\"name\":\"A\"}");
    // no operator yet: the persist and the acknowledgment, nothing else
    assert_eq!(effs.len(), 2);
    assert_eq!(describe(&effs[0]), "PersistAgent");
    let (to, text) = send_of(&effs[1]);
    assert_eq!(to, "agent-1");
    assert!(text.starts_with("{\"type\":\"registration-ack\",\"success\":true,\"agentId\":\"agent-1\""));
    assert_eq!(hub.list_agents(10).len(), 1);
    assert_eq!(hub.list_agents(10)[0].name, "A");
}

#[test]
fn registry_defaults_and_lookup() {
    let mut hub = Hub::new();
    // no name given: the default applies
    let effs = hub.route(
        "agent-2",
        Envelope::RegisterAgent { name: None, metadata: None },
        "T1",
        "f-1",
    );
    assert_eq!(effs.len(), 2);
    let agents = hub.list_agents(10);
    assert_eq!(agents.len(), 1);
    assert_eq!(agents[0].name, "Unknown Agent");
    // an unnamed request from an unregistered agent gets both defaults
    let effs = hub.route(
        "ghost",
        Envelope::HumanInputRequest {
            request_id: None,
            input_type: None,
            message: None,
            options: None,
            context: None,
            timeout: Some(5),
        },
        "T2",
        "fresh-id-1",
    );
    assert_eq!(effs.len(), 1);
    match &effs[0] {
        Effect::PersistRequest { request } => {
            assert_eq!(request.id, "fresh-id-1");
            assert_eq!(request.agent_name, "Unknown Agent");
            assert_eq!(request.message, "");
            assert_eq!(request.timeout_seconds, 5);
            assert!(matches!(request.request_type, RequestType::Input));
            assert!(matches!(request.priority, RequestPriority::Medium));
        },
        other => panic!("expected PersistRequest, got {}", describe(other)),
    }
}

#[test]
fn list_by_role_snapshots() {
    let mut hub = Hub::new();
    let _ = hub.route("op-1", Envelope::RegisterGui, "T0", "f-0");
    let _ = hub.route("op-2", Envelope::RegisterGui, "T0", "f-0");
    register_builder(&mut hub);
    let ops = hub.registry.list_by_role(Role::Operator);
    assert_eq!(ops.len(), 2);
    assert_eq!(ops[0].id, "op-1");
    assert_eq!(ops[1].id, "op-2");
    let agents = hub.registry.list_by_role(Role::Agent);
    assert_eq!(agents.len(), 1);
    assert_eq!(agents[0].id, "agent-1");
    // both operators get each broadcast, in registration order
    let effs = hub.route(
        "agent-1",
        Envelope::Content { kind: ContentKind::Code, data: "\"fn x() {}\"".to_string() },
        "T2",
        "f-2",
    );
    assert_eq!(effs.len(), 2);
    assert_eq!(send_of(&effs[0]).0, "op-1");
    assert_eq!(send_of(&effs[1]).0, "op-2");
    assert_eq!(
        send_of(&effs[0]).1,
        "{\"type\":\"code-content\",\"data\":\"fn x() {}\",\"timestamp\":\"T2\"}"
    );
}

#[test]
fn list_recent_is_newest_first() {
    let mut hub = Hub::new();
    register_builder(&mut hub);
    for (i, ts) in [("r1", "T2"), ("r2", "T3"), ("r3", "T4")] {
        let effs = hub.route(
            "agent-1",
            Envelope::HumanInputRequest {
                request_id: Some(i.to_string()),
                input_type: None,
                message: None,
                options: None,
                context: None,
                timeout: None,
            },
            ts,
            "f",
        );
        assert_eq!(effs.len(), 1);
    }
    let recent = hub.list_human_requests(2);
    assert_eq!(recent.len(), 2);
    assert_eq!(recent[0].id, "r3");
    assert_eq!(recent[1].id, "r2");
}

#[test]
fn decode_response_and_content() {
    let env = decode_envelope(
        "{\"type\":\"human-input-response\",\"requestId\":\"r\",\"response\":\"ok\",\
         \"additionalContext\":{\"note\":\"x\"}}",
    );
    match env {
        Envelope::HumanInputResponse { request_id, response, additional_context } => {
            assert_eq!(request_id.as_deref(), Some("r"));
            assert_eq!(response.as_deref(), Some("ok"));
            assert_eq!(additional_context, "{\"note\":\"x\"}");
        },
        _ => panic!("expected HumanInputResponse"),
    }
    let env = decode_envelope("{\"type\":\"markdown-content\",\"data\":\"# hi\"}");
    match env {
        Envelope::Content { kind, data } => {
            assert!(matches!(kind, ContentKind::Markdown));
            assert_eq!(data, "\"# hi\"");
        },
        _ => panic!("expected Content"),
    }
    // a content envelope without data forwards null, as the field would read
    let env = decode_envelope("{\"type\":\"image-content\"}");
    match env {
        Envelope::Content { kind, data } => {
            assert!(matches!(kind, ContentKind::Image));
            assert_eq!(data, "null");
        },
        _ => panic!("expected Content"),
    }
}

#[test]
fn raw_messages_drive_the_whole_flow() {
    let mut hub = Hub::new();
    let effs = hub.handle_message("op-1", "{\"type\":\"register-gui\"}");
    assert!(effs.is_empty());
    let effs = hub.handle_message(
        "agent-1",
        "{\"type\":\"register-agent\",\"name\":\"Builder\"}",
    );
    assert_eq!(effs.len(), 3);
    assert_eq!(send_of(&effs[2]).0, "op-1");
    let effs = hub.handle_message(
        "agent-1",
        "{\"type\":\"human-input-request\",\"requestId\":\"q1\",\"inputType\":\"approval\",\
         \"message\":\"Deploy to prod?\"}",
    );
    assert_eq!(effs.len(), 2);
    match &effs[0] {
        Effect::PersistRequest { request } => {
            assert!(matches!(request.priority, RequestPriority::High));
            assert_eq!(request.agent_name, "Builder");
        },
        other => panic!("expected PersistRequest, got {}", describe(other)),
    }
    let effs = hub.handle_message(
        "op-1",
        "{\"type\":\"human-input-response\",\"requestId\":\"q1\",\"response\":\"yes\"}",
    );
    assert_eq!(effs.len(), 1);
    let (to, text) = send_of(&effs[0]);
    assert_eq!(to, "agent-1");
    assert!(text.starts_with(
        "{\"type\":\"human-input-response\",\"requestId\":\"q1\",\"response\":\"yes\""
    ));
    assert!(matches!(hub.list_human_requests(1)[0].status, RequestStatus::Completed));
}
