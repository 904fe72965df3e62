use agent_framework::comms::address::{AgentAddress, AgentLocation};
use agent_framework::comms::context::AgentContext;
use agent_framework::comms::coordinator::AgentCoordinator;
use agent_framework::comms::delegation::{DelegationRequest, DelegationResult, EscalationRequest};
use agent_framework::comms::error::CommsError;
use agent_framework::comms::hierarchy::{AgentHierarchy, AgentRole};
use agent_framework::comms::http::HttpTransport;
use agent_framework::comms::message::{AgentMessage, MessageType};
use agent_framework::comms::registry::AgentRegistry;

fn json(text: &str) -> serde_json::Value {
    serde_json::from_str(text).unwrap()
}

#[test]
fn test_local_address() {
    let addr = AgentAddress::local("agent-1");
    assert_eq!(addr.id, "agent-1");
    assert!(addr.is_local());
}

#[test]
fn test_network_address() {
    let addr = AgentAddress::network("agent-2", "192.168.1.100", 8080);
    assert_eq!(addr.id, "agent-2");
    assert!(!addr.is_local());

    match addr.location {
        AgentLocation::Network { host, port } => {
            assert_eq!(host, "192.168.1.100");
            assert_eq!(port, 8080);
        }
        _ => panic!("Expected Network location"),
    }
}

#[test]
fn cluster_address_is_not_local() {
    let addr = AgentAddress::cluster("agent-3", "cluster-east");
    assert!(!addr.is_local());
    assert_eq!(addr.location, AgentLocation::Cluster { cluster_id: "cluster-east".to_string() });
}

#[test]
fn lib_test_module_exports() {
    assert!(true);
}

#[test]
fn test_coordinator_creation() {
    let coordinator = AgentCoordinator::new();
    assert_eq!(coordinator.agent_count(), 0);
}

#[test]
fn test_agent_registration() {
    let mut coordinator = AgentCoordinator::new();
    let role = AgentRole::Coordinator { subordinates: vec![], team: "team-alpha".to_string() };
    coordinator.register_agent(AgentAddress::local("coord-1"), role);

    assert_eq!(coordinator.agent_count(), 1);
    assert!(coordinator.get_agent("coord-1").is_some());
}

#[test]
fn test_create_team() {
    let mut coordinator = AgentCoordinator::new();
    coordinator.register_agent(AgentAddress::local("coord-1"), AgentRole::Standalone);

    coordinator.create_team("coord-1".to_string(), "team-alpha".to_string()).unwrap();

    let role = coordinator.hierarchy().get_role("coord-1").unwrap();
    assert!(role.is_coordinator());
}

#[test]
fn test_add_worker_to_team() {
    let mut coordinator = AgentCoordinator::new();
    let role = AgentRole::Coordinator { subordinates: vec![], team: "team-alpha".to_string() };
    coordinator.register_agent(AgentAddress::local("coord-1"), role);

    coordinator.add_worker_to_team("worker-1".to_string(), "coord-1", "team-alpha".to_string()).unwrap();

    assert!(coordinator.hierarchy().is_subordinate("worker-1", "coord-1"));
    assert_eq!(coordinator.get_subordinates("coord-1").len(), 1);
}

#[test]
fn test_delegation() {
    let mut coordinator = AgentCoordinator::new();
    let coord_role = AgentRole::Coordinator { subordinates: vec!["worker-1".to_string()], team: "team-alpha".to_string() };
    coordinator.register_agent(AgentAddress::local("coord-1"), coord_role);
    let worker_role = AgentRole::Worker { supervisor: "coord-1".to_string(), team: "team-alpha".to_string() };
    coordinator.register_agent(AgentAddress::local("worker-1"), worker_role);

    let delegation = coordinator.prepare_delegation("coord-1", Some("worker-1"), "Process data").unwrap();
    assert!(!delegation.task_id.is_empty());
    assert_eq!(delegation.to_worker, "worker-1");
}

#[test]
fn delegation_defaults_to_first_subordinate_and_is_taken_once() {
    let mut coordinator = AgentCoordinator::new();
    let role = AgentRole::Coordinator { subordinates: vec!["w-a".to_string(), "w-b".to_string()], team: "t".to_string() };
    coordinator.register_agent(AgentAddress::local("c"), role);

    let d = coordinator.prepare_delegation("c", None, "job").unwrap();
    assert_eq!(d.to_worker, "w-a");
    assert_eq!(d.priority, 5);

    let taken = coordinator.take_pending(&d.task_id).unwrap();
    assert_eq!(taken.task_id, d.task_id);
    match coordinator.take_pending(&d.task_id) {
        Err(CommsError::Other(m)) => assert_eq!(m, format!("Task {} not found", d.task_id)),
        _ => panic!("expected an unknown task"),
    }
}

#[test]
fn delegation_errors() {
    let mut coordinator = AgentCoordinator::new();
    match coordinator.prepare_delegation("ghost", None, "job") {
        Err(CommsError::AgentNotFound(m)) => assert_eq!(m, "ghost"),
        _ => panic!("expected AgentNotFound"),
    }
    coordinator.register_agent(AgentAddress::local("solo"), AgentRole::Standalone);
    match coordinator.prepare_delegation("solo", None, "job") {
        Err(CommsError::Permission(m)) => assert_eq!(m, "Only coordinators can delegate tasks"),
        _ => panic!("expected Permission"),
    }
    let role = AgentRole::Coordinator { subordinates: vec![], team: "t".to_string() };
    coordinator.register_agent(AgentAddress::local("c"), role);
    match coordinator.prepare_delegation("c", None, "job") {
        Err(CommsError::Other(m)) => assert_eq!(m, "No subordinates available"),
        _ => panic!("expected Other"),
    }
    match coordinator.prepare_delegation("c", Some("stranger"), "job") {
        Err(CommsError::Permission(m)) => assert_eq!(m, "stranger is not a subordinate of c"),
        _ => panic!("expected Permission"),
    }
}

#[test]
fn escalation_broadcast_and_request_targets() {
    let mut coordinator = AgentCoordinator::new();
    let role = AgentRole::Coordinator { subordinates: vec![], team: "team-alpha".to_string() };
    coordinator.register_agent(AgentAddress::local("coord-1"), role);
    coordinator.add_worker_to_team("worker-1".to_string(), "coord-1", "team-alpha".to_string()).unwrap();

    assert_eq!(coordinator.escalation_target("worker-1").unwrap(), "coord-1");
    match coordinator.escalation_target("coord-1") {
        Err(CommsError::Other(m)) => assert_eq!(m, "Worker coord-1 has no supervisor"),
        _ => panic!("expected Other"),
    }

    assert_eq!(coordinator.broadcast_reach("team-alpha").unwrap(), 2);
    match coordinator.broadcast_reach("team-beta") {
        Err(CommsError::Other(m)) => assert_eq!(m, "Team team-beta not found or empty"),
        _ => panic!("expected Other"),
    }

    let target = coordinator.request_target("coord-1", "coord-1").unwrap();
    assert_eq!(target.id, "coord-1");
    match coordinator.request_target("coord-1", "nobody") {
        Err(CommsError::AgentNotFound(m)) => assert_eq!(m, "nobody"),
        _ => panic!("expected AgentNotFound"),
    }
}

#[test]
fn unregister_stops_tracking() {
    let mut coordinator = AgentCoordinator::new();
    coordinator.register_agent(AgentAddress::local("a"), AgentRole::Standalone);
    assert!(coordinator.unregister_agent("a"));
    assert!(!coordinator.unregister_agent("a"));
    assert_eq!(coordinator.agent_count(), 0);
    assert!(coordinator.list_agents().is_empty());
}

#[test]
fn test_delegation_request_creation() {
    let req = DelegationRequest::new("coord-1", "worker-1", "Process user data").with_priority(8);
    assert_eq!(req.from_coordinator, "coord-1");
    assert_eq!(req.to_worker, "worker-1");
    assert_eq!(req.priority, 8);
}

#[test]
fn test_delegation_result_success() {
    let result = DelegationResult::success("task-123", "worker-1", json(r#"{"count": 42}"#));
    assert!(result.success);
    assert!(result.result.is_some());
    assert_eq!(result.result.unwrap()["count"], 42);
}

#[test]
fn test_delegation_result_failure() {
    let result = DelegationResult::failure("task-123", "worker-1", "Out of memory");
    assert!(!result.success);
    assert_eq!(result.error.unwrap(), "Out of memory");
}

#[test]
fn test_escalation_request() {
    let esc = EscalationRequest::new("worker-1", "coord-1", "Need more resources").with_task("task-456");
    assert_eq!(esc.from_worker, "worker-1");
    assert_eq!(esc.task_id.unwrap(), "task-456");
}

#[test]
fn test_coordinator_role() {
    let mut hierarchy = AgentHierarchy::new();
    let role = AgentRole::Coordinator {
        subordinates: vec!["worker-1".to_string(), "worker-2".to_string()],
        team: "team-alpha".to_string(),
    };
    hierarchy.register("coord-1".to_string(), role.clone());

    let retrieved = hierarchy.get_role("coord-1").unwrap();
    assert!(retrieved.is_coordinator());
    assert_eq!(retrieved.subordinates().len(), 2);
}

#[test]
fn test_worker_role() {
    let mut hierarchy = AgentHierarchy::new();
    let role = AgentRole::Worker { supervisor: "coord-1".to_string(), team: "team-alpha".to_string() };
    hierarchy.register("worker-1".to_string(), role);

    assert!(hierarchy.is_subordinate("worker-1", "coord-1"));
    assert_eq!(hierarchy.get_supervisor("worker-1"), Some("coord-1".to_string()));
}

#[test]
fn test_add_remove_subordinate() {
    let mut hierarchy = AgentHierarchy::new();
    let role = AgentRole::Coordinator { subordinates: vec![], team: "team-alpha".to_string() };
    hierarchy.register("coord-1".to_string(), role);

    assert!(hierarchy.add_subordinate("coord-1", "worker-1".to_string()));
    assert_eq!(hierarchy.get_subordinates("coord-1").len(), 1);

    assert!(hierarchy.remove_subordinate("coord-1", "worker-1"));
    assert_eq!(hierarchy.get_subordinates("coord-1").len(), 0);
}

#[test]
fn subordinate_changes_need_a_coordinator() {
    let mut hierarchy = AgentHierarchy::new();
    hierarchy.register("w".to_string(), AgentRole::Worker { supervisor: "c".to_string(), team: "t".to_string() });
    assert!(!hierarchy.add_subordinate("w", "x".to_string()));
    assert!(!hierarchy.remove_subordinate("nobody", "x"));
    assert!(hierarchy.get_subordinates("w").is_empty());
}

#[test]
fn test_team_members() {
    let mut hierarchy = AgentHierarchy::new();
    hierarchy.register("agent-1".to_string(), AgentRole::Worker { supervisor: "coord-1".to_string(), team: "team-alpha".to_string() });
    hierarchy.register("agent-2".to_string(), AgentRole::Worker { supervisor: "coord-1".to_string(), team: "team-alpha".to_string() });

    let members = hierarchy.get_team_members("team-alpha");
    assert_eq!(members.len(), 2);
}

#[test]
fn coordinators_and_workers_are_listed() {
    let mut hierarchy = AgentHierarchy::new();
    hierarchy.register("c".to_string(), AgentRole::Coordinator { subordinates: vec![], team: "t".to_string() });
    hierarchy.register("w".to_string(), AgentRole::Worker { supervisor: "c".to_string(), team: "t".to_string() });
    hierarchy.register("p".to_string(), AgentRole::Peer { team: "t".to_string(), peers: vec![] });
    assert_eq!(hierarchy.get_coordinators(), vec!["c".to_string()]);
    assert_eq!(hierarchy.get_workers(), vec!["w".to_string()]);
    assert_eq!(hierarchy.get_team_members("t").len(), 3);
}

#[test]
fn registry_register_lookup_and_find_by_role() {
    let mut registry = AgentRegistry::new();
    registry.register(AgentAddress::local("a"), Some("researcher".to_string()));
    registry.register(AgentAddress::network("b", "10.0.0.2", 9000), Some("researcher".to_string()));
    registry.register(AgentAddress::local("c"), None);

    assert_eq!(registry.count(), 3);
    assert_eq!(registry.lookup("b").unwrap().id, "b");
    assert!(registry.lookup("zzz").is_none());
    let found = registry.find_by_role("researcher");
    assert_eq!(found.len(), 2);
    assert_eq!(found[0].id, "a");
    assert_eq!(found[1].id, "b");
    assert!(registry.find_by_role("writer").is_empty());
    let mut all = registry.list_all();
    all.sort();
    assert_eq!(all, vec!["a".to_string(), "b".to_string(), "c".to_string()]);
}

#[test]
fn test_http_transport_creation() {
    let transport = HttpTransport::new("http://localhost:8080").unwrap();
    assert_eq!(transport.name(), "http");
}

#[test]
fn test_get_agent_url() {
    let transport = HttpTransport::new("http://localhost:8080").unwrap();
    let url = transport.get_agent_url("agent-1");
    assert_eq!(url, "http://localhost:8080/api/agents/agent-1/messages");
}

#[test]
fn http_request_and_topic_urls() {
    let transport = HttpTransport::new("http://h:1").unwrap();
    assert_eq!(transport.request_url("x"), "http://h:1/api/agents/x/request");
    assert_eq!(transport.topic_url("news"), "http://h:1/api/topics/news");
}

#[test]
fn message_test_message_creation() {
    let msg = AgentMessage::new("agent-1", "agent-2", json(r#"{"test": true}"#));
    assert_eq!(msg.from, "agent-1");
    assert_eq!(msg.to.unwrap(), "agent-2");
    assert_eq!(msg.msg_type, MessageType::Send);
}

#[test]
fn test_request_message() {
    let msg = AgentMessage::request("a", "b", json(r#"{"query": "status"}"#));
    assert_eq!(msg.msg_type, MessageType::Request);
    assert!(msg.request_id.is_some());
}

#[test]
fn test_broadcast_message() {
    let msg = AgentMessage::broadcast("coordinator", "tasks", json(r#"{"task": "new"}"#));
    assert_eq!(msg.msg_type, MessageType::Broadcast);
    assert!(msg.topic.is_some());
    assert!(msg.to.is_none());
}

#[test]
fn response_answers_the_request_id() {
    let msg = AgentMessage::response("b", "a", json("1"), "req-9");
    assert_eq!(msg.msg_type, MessageType::Response);
    assert_eq!(msg.request_id.as_deref(), Some("req-9"));
    assert_eq!(msg.to.as_deref(), Some("a"));
}

#[test]
fn into_request_keeps_or_assigns_the_request_id() {
    let msg = AgentMessage::new("a", "b", json("null"));
    let id = msg.id.clone();
    let (req, rid) = msg.into_request();
    assert_eq!(req.msg_type, MessageType::Request);
    assert_eq!(rid, id);

    let msg = AgentMessage::request("a", "b", json("null"));
    let rid_before = msg.request_id.clone().unwrap();
    let (_, rid) = msg.into_request();
    assert_eq!(rid, rid_before);
}

#[test]
fn agent_context_builders() {
    let ctx = AgentContext::new(AgentAddress::local("me"), 7u8)
        .with_supervisor(AgentAddress::local("boss"))
        .with_subordinates(vec![AgentAddress::local("s1")])
        .with_role("analyst");
    assert_eq!(ctx.my_address.id, "me");
    assert_eq!(ctx.supervisor.unwrap().id, "boss");
    assert_eq!(ctx.subordinates.len(), 1);
    assert!(ctx.peers.is_empty());
    assert_eq!(ctx.transport, 7u8);
    assert_eq!(ctx.role.as_deref(), Some("analyst"));
}

#[test]
fn add_worker_twice_keeps_one_subordinate_and_joins_the_team() {
    let mut coordinator = AgentCoordinator::new();
    let role = AgentRole::Coordinator { subordinates: vec![], team: "team-alpha".to_string() };
    coordinator.register_agent(AgentAddress::local("coord-1"), role);
    coordinator.register_agent(AgentAddress::local("other"), AgentRole::Standalone);
    coordinator.add_worker_to_team("worker-1".to_string(), "coord-1", "team-alpha".to_string()).unwrap();
    coordinator.add_worker_to_team("worker-1".to_string(), "coord-1", "team-alpha".to_string()).unwrap();
    assert_eq!(coordinator.get_subordinates("coord-1"), vec!["worker-1".to_string()]);
    assert!(coordinator.get_team_members("team-alpha").contains(&"worker-1".to_string()));
    assert_eq!(coordinator.hierarchy().get_supervisor("worker-1"), Some("coord-1".to_string()));
    assert_eq!(coordinator.hierarchy().get_role("other"), Some(AgentRole::Standalone));
    match coordinator.add_worker_to_team("w".to_string(), "other", "t".to_string()) {
        Err(CommsError::Permission(m)) => assert_eq!(m, "other is not a coordinator"),
        _ => panic!("expected Permission"),
    }
}

#[test]
fn registered_agent_handle_and_task_id() {
    let mut coordinator = AgentCoordinator::new();
    let role = AgentRole::Coordinator { subordinates: vec!["w".to_string()], team: "t".to_string() };
    coordinator.register_agent(AgentAddress::local("c"), role.clone());
    let handle = coordinator.get_agent("c").unwrap();
    assert_eq!(handle.agent_id, "c");
    assert_eq!(handle.role, role);
    assert_eq!(coordinator.registry().find_by_role("coordinator").len(), 1);
    let d = coordinator.prepare_delegation("c", None, "job").unwrap();
    assert_eq!(d.task_id.chars().count(), 36);
}

#[test]
fn registration_places_the_agent_in_its_team_and_keeps_other_addresses() {
    let mut coordinator = AgentCoordinator::new();
    coordinator.register_agent(AgentAddress::local("lead"), AgentRole::Coordinator { subordinates: vec![], team: "red".to_string() });
    coordinator.register_agent(AgentAddress::local("w-1"), AgentRole::Worker { supervisor: "lead".to_string(), team: "red".to_string() });
    coordinator.register_agent(AgentAddress::local("solo"), AgentRole::Standalone);
    assert_eq!(coordinator.get_team_members("red"), vec!["lead".to_string(), "w-1".to_string()]);
    assert!(coordinator.registry().lookup("lead").is_some());
    assert!(coordinator.registry().lookup("w-1").is_some());
    assert_eq!(coordinator.registry().find_by_role("worker").len(), 1);
    assert_eq!(coordinator.registry().find_by_role("standalone").len(), 1);
}

#[test]
fn pending_delegation_is_the_one_returned() {
    let mut coordinator = AgentCoordinator::new();
    let role = AgentRole::Coordinator { subordinates: vec!["w".to_string()], team: "t".to_string() };
    coordinator.register_agent(AgentAddress::local("c"), role);
    let first = coordinator.prepare_delegation("c", None, "first").unwrap();
    let second = coordinator.prepare_delegation("c", None, "second").unwrap();
    let taken = coordinator.take_pending(&second.task_id).unwrap();
    assert_eq!(taken.task_id, second.task_id);
    assert_eq!(taken.description, "second");
    assert_eq!(taken.from_coordinator, "c");
    assert_eq!(taken.to_worker, "w");
    assert_eq!(taken.priority, 5);
    assert_eq!(taken.deadline, None);
    assert_eq!(taken.context, serde_json::Value::Null);
    let other = coordinator.take_pending(&first.task_id).unwrap();
    assert_eq!(other.description, "first");
}
