use agent_hub::models::AgentStatus;
use agent_hub::models::RequestPriority;
use agent_hub::models::RequestStatus;
use agent_hub::models::RequestType;

#[test]
fn approval_is_always_high() {
    let p = RequestPriority::from_request_type_and_message(&RequestType::Approval, "anything");
    assert_eq!(p, RequestPriority::High);
    let p = RequestPriority::from_request_type_and_message(&RequestType::Confirmation, "urgent!");
    assert_eq!(p, RequestPriority::High);
}

#[test]
fn urgent_message_is_critical() {
    let p = RequestPriority::from_request_type_and_message(&RequestType::Input, "URGENT fix");
    assert_eq!(p, RequestPriority::Critical);
    let p = RequestPriority::from_request_type_and_message(&RequestType::Text, "this is CRITICAL");
    assert_eq!(p, RequestPriority::Critical);
}

#[test]
fn optional_message_is_low() {
    let p = RequestPriority::from_request_type_and_message(&RequestType::Input, "optional nit");
    assert_eq!(p, RequestPriority::Low);
    let p = RequestPriority::from_request_type_and_message(&RequestType::Choice, "a Suggestion");
    assert_eq!(p, RequestPriority::Low);
}

#[test]
fn plain_message_is_medium() {
    let p = RequestPriority::from_request_type_and_message(&RequestType::Input, "plain");
    assert_eq!(p, RequestPriority::Medium);
    let p = RequestPriority::from_request_type_and_message(&RequestType::Input, "");
    assert_eq!(p, RequestPriority::Medium);
}

#[test]
fn status_labels() {
    assert_eq!(AgentStatus::Connected.label(), "connected");
    assert_eq!(AgentStatus::Active.label(), "active");
    assert_eq!(AgentStatus::Disconnected.label(), "disconnected");
    assert_eq!(RequestStatus::Pending.label(), "pending");
    assert_eq!(RequestStatus::Completed.label(), "completed");
    assert_eq!(RequestStatus::Timeout.label(), "timeout");
    assert_eq!(RequestPriority::Low.label(), "low");
    assert_eq!(RequestPriority::Medium.label(), "medium");
    assert_eq!(RequestPriority::High.label(), "high");
    assert_eq!(RequestPriority::Critical.label(), "critical");
}
