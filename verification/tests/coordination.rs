use agent_framework::comms::coordinator::AgentCoordinator;
use agent_framework::comms::hierarchy::AgentRole;
use agent_framework::comms::message::{AgentMessage, MessageType};
use agent_framework::coordination::error::CoordinationError;
use agent_framework::coordination::factory::{default_hierarchy_role, default_max_iterations, AgentFactory, RoleConfig};
use agent_framework::coordination::orchestrator::{action_for, answers_failure, error_content, error_route, reply_content, reply_route, MessageAction};
use agent_framework::llm::Provider;

fn role(name: &str, provider: &str, hierarchy: &str, team: Option<&str>, supervisor: Option<&str>) -> RoleConfig {
    RoleConfig {
        role: name.to_string(),
        system_message: "You are a test specialist".to_string(),
        model: "gpt-3.5-turbo".to_string(),
        provider: provider.to_string(),
        tools: vec![],
        can_spawn_agents: false,
        max_iterations: 10,
        hierarchy_role: hierarchy.to_string(),
        team: team.map(|t| t.to_string()),
        supervisor: supervisor.map(|s| s.to_string()),
    }
}

fn config_message(e: CoordinationError) -> String {
    match e {
        CoordinationError::Config(m) => m,
        other => panic!("expected a configuration error, got {:?}", other),
    }
}

#[test]
fn test_factory_creation() {
    let factory = AgentFactory::new(AgentCoordinator::new(), Some("test-key".to_string()), None);
    assert_eq!(factory.agent_count(), 0);
}

#[test]
fn test_register_role() {
    let mut factory = AgentFactory::new(AgentCoordinator::new(), Some("test-key".to_string()), None);
    factory.register_role(role("test_specialist", "openai", "standalone", None, None));
    assert!(factory.has_role("test_specialist"));
}

#[test]
fn spawn_decisions() {
    let mut factory = AgentFactory::new(AgentCoordinator::new(), Some("test-key".to_string()), None);
    factory.register_role(role("analyst", "openai", "worker", Some("red"), Some("lead")));
    factory.register_role(role("writer", "anthropic", "standalone", None, None));
    factory.register_role(role("odd", "cohere", "standalone", None, None));

    assert_eq!(config_message(factory.prepare_spawn("nobody", None).err().unwrap()), "Unknown role: nobody");
    assert_eq!(config_message(factory.prepare_spawn("writer", None).err().unwrap()), "Anthropic key not set");
    assert_eq!(config_message(factory.prepare_spawn("odd", None).err().unwrap()), "Unknown provider");

    let plan = factory.prepare_spawn("analyst", None).unwrap();
    assert!(plan.agent_id.starts_with("analyst-"));
    assert_eq!(plan.agent_id.len(), "analyst-".len() + 8);
    assert!(matches!(plan.provider, Provider::OpenAI(_)));
    assert_eq!(plan.max_iterations, 10);
    let hierarchy = plan.hierarchy.unwrap();
    assert_eq!(hierarchy, AgentRole::Worker { supervisor: "lead".to_string(), team: "red".to_string() });

    let named = factory.prepare_spawn("analyst", Some("a-1".to_string())).unwrap();
    assert_eq!(named.agent_id, "a-1");
    let id = factory.register_spawned(named.agent_id, named.hierarchy).unwrap();
    assert_eq!(id, "a-1");
    assert_eq!(factory.agent_count(), 1);
    assert_eq!(factory.list_agents(), vec!["a-1".to_string()]);
    assert_eq!(factory.get_agents_by_role("worker").len(), 1);
    assert!(factory.coordinator().hierarchy().is_subordinate("a-1", "lead"));
}

#[test]
fn spawn_with_an_empty_key_and_a_worker_without_supervisor() {
    let mut factory = AgentFactory::new(AgentCoordinator::new(), Some(String::new()), Some("k".to_string()));
    factory.register_role(role("a", "openai", "standalone", None, None));
    factory.register_role(role("w", "anthropic", "worker", None, None));
    assert_eq!(
        config_message(factory.prepare_spawn("a", None).err().unwrap()),
        "Provider error: Invalid configuration: OpenAI API key cannot be empty"
    );
    let plan = factory.prepare_spawn("w", Some("w-1".to_string())).unwrap();
    let err = factory.register_spawned(plan.agent_id, plan.hierarchy).err().unwrap();
    assert_eq!(config_message(err), "Worker role requires supervisor");
    assert_eq!(factory.agent_count(), 0);
}

#[test]
fn hierarchy_roles_from_configs() {
    let factory = AgentFactory::new(AgentCoordinator::new(), None, None);
    assert_eq!(
        factory.create_hierarchy_role(&role("c", "openai", "coordinator", None, None)).unwrap(),
        AgentRole::Coordinator { subordinates: vec![], team: "default".to_string() }
    );
    assert_eq!(
        factory.create_hierarchy_role(&role("p", "openai", "peer", Some("blue"), None)).unwrap(),
        AgentRole::Peer { team: "blue".to_string(), peers: vec![] }
    );
    assert_eq!(factory.create_hierarchy_role(&role("s", "openai", "anything", None, None)).unwrap(), AgentRole::Standalone);
    assert_eq!(default_max_iterations(), 10);
    assert_eq!(default_hierarchy_role(), "standalone");
}

#[test]
fn message_actions_and_routes() {
    let payload: serde_json::Value = serde_json::from_str("{}").unwrap();
    let req = AgentMessage::request("alice", "bob", payload.clone());
    assert!(matches!(action_for(&req), MessageAction::RunAndReply));
    assert!(answers_failure(&req));
    let route = reply_route(&req);
    assert_eq!((route.from.as_str(), route.to.as_str()), ("bob", "alice"));
    assert_eq!(route.request_id, req.id);

    let send = AgentMessage::new("alice", "bob", payload.clone());
    assert!(matches!(action_for(&send), MessageAction::Run));
    assert!(!answers_failure(&send));

    let cast = AgentMessage::broadcast("alice", "news", payload.clone());
    assert!(matches!(action_for(&cast), MessageAction::Run));
    let err = error_route(&cast);
    assert_eq!(err.from, "unknown");
    assert_eq!(err.to, "alice");
    let own = reply_route(&cast);
    assert_eq!(own.from, "alice");

    let resp = AgentMessage::response("bob", "alice", payload.clone(), "req-1");
    match action_for(&resp) {
        MessageAction::Resolve { request_id } => assert_eq!(request_id, "req-1"),
        _ => panic!("expected Resolve"),
    }
    let mut stray = resp.clone();
    stray.request_id = None;
    assert!(matches!(action_for(&stray), MessageAction::Ignore));
    assert_eq!(stray.msg_type, MessageType::Response);
}

#[test]
fn registering_roles_keeps_the_keys_and_spawn_fills_the_role_index() {
    let mut factory = AgentFactory::new(AgentCoordinator::new(), Some("test-key".to_string()), None);
    factory.register_role(role("writer", "anthropic", "standalone", None, None));
    factory.register_role(role("lead", "openai", "coordinator", Some("t"), None));
    assert_eq!(config_message(factory.prepare_spawn("writer", Some("w-1".to_string())).err().unwrap()), "Anthropic key not set");
    assert_eq!(factory.agent_count(), 0);
    let plan = factory.prepare_spawn("lead", None).unwrap();
    let id = factory.register_spawned(plan.agent_id, plan.hierarchy).unwrap();
    assert_eq!(factory.agent_count(), 1);
    assert_eq!(factory.get_agents_by_role("coordinator")[0].id, id);
    assert_eq!(
        factory.coordinator().hierarchy().get_role(&id),
        Some(AgentRole::Coordinator { subordinates: vec![], team: "t".to_string() })
    );
}

#[test]
fn reply_and_error_contents() {
    let reply = reply_content("done");
    assert_eq!(reply, serde_json::from_str::<serde_json::Value>(r#"{"response": "done"}"#).unwrap());
    let error = error_content("boom");
    assert_eq!(error, serde_json::from_str::<serde_json::Value>(r#"{"error": "boom", "success": false}"#).unwrap());
}

#[test]
fn spawned_provider_waits_sixty_seconds() {
    let mut factory = AgentFactory::new(AgentCoordinator::new(), Some("k1".to_string()), Some("k2".to_string()));
    factory.register_role(role("a", "openai", "standalone", None, None));
    factory.register_role(role("b", "anthropic", "standalone", None, None));
    match factory.prepare_spawn("a", None).unwrap().provider {
        Provider::OpenAI(p) => assert_eq!(p.timeout(), std::time::Duration::from_secs(60)),
        _ => panic!("expected an OpenAI provider"),
    }
    match factory.prepare_spawn("b", None).unwrap().provider {
        Provider::Anthropic(p) => assert_eq!(p.timeout(), std::time::Duration::from_secs(60)),
        _ => panic!("expected an Anthropic provider"),
    }
}
