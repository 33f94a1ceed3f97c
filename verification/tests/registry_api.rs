use agent_hub::models::Agent;
use agent_hub::models::AgentStatus;
use agent_hub::registry::Connection;
use agent_hub::registry::ConnectionRegistry;
use agent_hub::registry::Role;

fn agent(id: &str, name: &str) -> Agent {
    Agent {
        id: id.to_string(),
        name: name.to_string(),
        status: AgentStatus::Connected,
        connected_at: "T1".to_string(),
        last_activity: "T1".to_string(),
        metadata: None,
    }
}

#[test]
fn register_fails_only_on_duplicate_id() {
    let mut reg = ConnectionRegistry::new();
    assert!(reg.register(Connection {
        id: "c-1".to_string(),
        role: Role::Operator,
        agent: None,
    }));
    assert!(!reg.register(Connection {
        id: "c-1".to_string(),
        role: Role::Operator,
        agent: None,
    }));
    assert!(reg.register(Connection {
        id: "c-2".to_string(),
        role: Role::Agent,
        agent: Some(agent("c-2", "A")),
    }));
}

#[test]
fn unregister_removes_and_returns() {
    let mut reg = ConnectionRegistry::new();
    assert!(reg.register(Connection {
        id: "c-1".to_string(),
        role: Role::Agent,
        agent: Some(agent("c-1", "A")),
    }));
    let removed = reg.unregister("c-1").unwrap();
    assert_eq!(removed.id, "c-1");
    assert!(matches!(removed.role, Role::Agent));
    assert!(reg.unregister("c-1").is_none());
    assert!(reg.lookup("c-1").is_none());
}

#[test]
fn attach_agent_profile_needs_an_agent_connection() {
    let mut reg = ConnectionRegistry::new();
    assert!(reg.register(Connection { id: "a-1".to_string(), role: Role::Agent, agent: None }));
    assert!(reg.register(Connection { id: "o-1".to_string(), role: Role::Operator, agent: None }));
    assert!(reg.attach_agent_profile("a-1", agent("a-1", "Builder")));
    assert!(!reg.attach_agent_profile("o-1", agent("o-1", "NotAnAgent")));
    assert!(!reg.attach_agent_profile("missing", agent("missing", "Ghost")));
    let c = reg.lookup("a-1").unwrap();
    assert_eq!(c.agent.unwrap().name, "Builder");
    assert!(reg.lookup("o-1").unwrap().agent.is_none());
}

#[test]
fn update_activity_touches_only_that_agent() {
    let mut reg = ConnectionRegistry::new();
    assert!(reg.register(Connection {
        id: "a-1".to_string(),
        role: Role::Agent,
        agent: Some(agent("a-1", "A")),
    }));
    assert!(reg.register(Connection {
        id: "a-2".to_string(),
        role: Role::Agent,
        agent: Some(agent("a-2", "B")),
    }));
    assert!(reg.update_activity("a-1", "T7"));
    assert!(!reg.update_activity("missing", "T7"));
    let touched = reg.lookup("a-1").unwrap().agent.unwrap();
    assert!(matches!(touched.status, AgentStatus::Active));
    assert_eq!(touched.last_activity, "T7");
    let untouched = reg.lookup("a-2").unwrap().agent.unwrap();
    assert!(matches!(untouched.status, AgentStatus::Connected));
    assert_eq!(untouched.last_activity, "T1");
}

#[test]
fn list_agents_caps_at_limit() {
    let mut reg = ConnectionRegistry::new();
    for i in 0..5 {
        let id = format!("a-{}", i);
        assert!(reg.register(Connection {
            id: id.clone(),
            role: Role::Agent,
            agent: Some(agent(&id, "A")),
        }));
    }
    assert_eq!(reg.list_agents(10).len(), 5);
    let two = reg.list_agents(2);
    assert_eq!(two.len(), 2);
    assert_eq!(two[0].id, "a-0");
    assert_eq!(two[1].id, "a-1");
}
