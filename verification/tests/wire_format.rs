use agent_hub::agent_protocol::AgentProtocol;
use agent_hub::agent_protocol::ProtocolError;
use agent_hub::agent_protocol::ProtocolMessage;
use agent_hub::models::Agent;
use agent_hub::models::AgentMessage;
use agent_hub::models::AgentStatus;
use agent_hub::models::HumanInputRequest;
use agent_hub::models::HumanResponse;
use agent_hub::models::RequestPriority;
use agent_hub::models::RequestStatus;
use agent_hub::models::RequestType;
use agent_hub::wire::encode_ack;
use agent_hub::wire::encode_agent;
use agent_hub::wire::encode_disconnect_data;
use agent_hub::wire::encode_request;
use agent_hub::wire::frame_event;

fn sample_request() -> HumanInputRequest {
    HumanInputRequest {
        id: "req-1".to_string(),
        agent_id: "agent-1".to_string(),
        agent_name: "Builder".to_string(),
        request_type: RequestType::Approval,
        message: "Deploy to prod?".to_string(),
        options: vec!["yes".to_string(), "no".to_string()],
        context: None,
        timeout_seconds: 1234567,
        timestamp: "T2".to_string(),
        status: RequestStatus::Pending,
        priority: RequestPriority::High,
    }
}

#[test]
fn agent_object_shape() {
    let a = Agent {
        id: "agent-1".to_string(),
        name: "Builder".to_string(),
        status: AgentStatus::Connected,
        connected_at: "T1".to_string(),
        last_activity: "T1".to_string(),
        metadata: None,
    };
    assert_eq!(
        encode_agent(&a),
        "{\"id\":\"agent-1\",\"name\":\"Builder\",\"status\":\"Connected\",\
         \"connected_at\":\"T1\",\"last_activity\":\"T1\",\"metadata\":null}"
    );
}

#[test]
fn agent_object_with_metadata() {
    let a = Agent {
        id: "x".to_string(),
        name: "n".to_string(),
        status: AgentStatus::Active,
        connected_at: "T1".to_string(),
        last_activity: "T9".to_string(),
        metadata: Some("{\"k\":1}".to_string()),
    };
    assert_eq!(
        encode_agent(&a),
        "{\"id\":\"x\",\"name\":\"n\",\"status\":\"Active\",\"connected_at\":\"T1\",\
         \"last_activity\":\"T9\",\"metadata\":{\"k\":1}}"
    );
}

#[test]
fn string_escaping() {
    let a = Agent {
        id: "a\"b".to_string(),
        name: "line\nbreak\ttab\\slash\u{1}".to_string(),
        status: AgentStatus::Connected,
        connected_at: "T".to_string(),
        last_activity: "T".to_string(),
        metadata: None,
    };
    let text = encode_agent(&a);
    assert!(text.starts_with("{\"id\":\"a\\\"b\",\"name\":\"line\\nbreak\\ttab\\\\slash\\u0001\""));
    // what the encoder wrote is JSON that parses back to the same strings
    let v: serde_json::Value = serde_json::from_str(&text).unwrap();
    assert_eq!(v["id"].as_str().unwrap(), "a\"b");
    assert_eq!(v["name"].as_str().unwrap(), "line\nbreak\ttab\\slash\u{1}");
}

#[test]
fn request_object_shape() {
    assert_eq!(
        encode_request(&sample_request()),
        "{\"id\":\"req-1\",\"agent_id\":\"agent-1\",\"agent_name\":\"Builder\",\
         \"request_type\":\"Approval\",\"message\":\"Deploy to prod?\",\
         \"options\":[\"yes\",\"no\"],\"context\":null,\"timeout_seconds\":1234567,\
         \"timestamp\":\"T2\",\"status\":\"Pending\",\"priority\":\"High\"}"
    );
}

#[test]
fn event_frame_shape() {
    assert_eq!(
        frame_event("agent-connected", "{\"id\":\"x\"}", "T1"),
        "{\"type\":\"agent-connected\",\"data\":{\"id\":\"x\"},\"timestamp\":\"T1\"}"
    );
}

#[test]
fn ack_shape() {
    assert_eq!(
        encode_ack("agent-1", "T1"),
        "{\"type\":\"registration-ack\",\"success\":true,\"agentId\":\"agent-1\",\
         \"serverTime\":\"T1\"}"
    );
}

#[test]
fn disconnect_data_shape() {
    assert_eq!(
        encode_disconnect_data("agent-1", "Builder"),
        "{\"agentId\":\"agent-1\",\"name\":\"Builder\"}"
    );
}

#[test]
fn validate_message_recognizes_agent_types() {
    assert!(matches!(
        AgentProtocol::validate_message("{\"type\":\"register-agent\"}"),
        Ok(ProtocolMessage::RegisterAgent)
    ));
    assert!(matches!(
        AgentProtocol::validate_message("{\"type\":\"agent-message\"}"),
        Ok(ProtocolMessage::AgentMessage)
    ));
    assert!(matches!(
        AgentProtocol::validate_message("{\"type\":\"human-input-request\"}"),
        Ok(ProtocolMessage::HumanInputRequest)
    ));
    assert!(matches!(
        AgentProtocol::validate_message("{\"type\":\"human-input-response\"}"),
        Ok(ProtocolMessage::HumanInputResponse)
    ));
}

#[test]
fn validate_message_refusals() {
    assert!(matches!(
        AgentProtocol::validate_message("not json"),
        Err(ProtocolError::InvalidJson(_))
    ));
    assert!(matches!(
        AgentProtocol::validate_message("{\"kind\":\"register-agent\"}"),
        Err(ProtocolError::MissingField(_))
    ));
    match AgentProtocol::validate_message("{\"type\":\"frobnicate\"}") {
        Err(ProtocolError::UnknownMessageType(t)) => assert_eq!(t, "frobnicate"),
        other => panic!("expected UnknownMessageType, got {:?}", other),
    }
}

#[test]
fn error_messages() {
    assert_eq!(
        ProtocolError::InvalidJson("x".to_string()).message(),
        "Invalid JSON: x"
    );
    assert_eq!(
        ProtocolError::MissingField("type".to_string()).message(),
        "Missing required field: type"
    );
    assert_eq!(
        ProtocolError::UnknownMessageType("z".to_string()).message(),
        "Unknown message type: z"
    );
    assert_eq!(
        ProtocolError::SerializationError("s".to_string()).message(),
        "Serialization error: s"
    );
}

#[test]
fn agent_update_message() {
    let m = AgentMessage {
        id: "m-1".to_string(),
        agent_id: "agent-1".to_string(),
        message_type: "agent-message".to_string(),
        payload: "{\"step\":3}".to_string(),
        timestamp: "T5".to_string(),
    };
    assert_eq!(
        AgentProtocol::create_agent_update_message(&m).unwrap(),
        "{\"type\":\"agent-update\",\"data\":{\"id\":\"m-1\",\"agent_id\":\"agent-1\",\
         \"message_type\":\"agent-message\",\"payload\":{\"step\":3},\"timestamp\":\"T5\"},\
         \"timestamp\":\"T5\"}"
    );
}

#[test]
fn human_request_message() {
    let text = AgentProtocol::create_human_request_message(&sample_request()).unwrap();
    assert!(text.starts_with("{\"type\":\"human-input-request\",\"data\":{\"id\":\"req-1\""));
    assert!(text.ends_with(",\"timestamp\":\"T2\"}"));
}

#[test]
fn response_acknowledgment() {
    let r = HumanResponse {
        request_id: "req-1".to_string(),
        response: "yes".to_string(),
        additional_context: Some("be careful".to_string()),
        responded_by: "human".to_string(),
        timestamp: "T3".to_string(),
    };
    assert_eq!(
        AgentProtocol::create_response_acknowledgment(&r).unwrap(),
        "{\"type\":\"human-input-response\",\"requestId\":\"req-1\",\"response\":\"yes\",\
         \"additionalContext\":\"be careful\",\"timestamp\":\"T3\"}"
    );
}
