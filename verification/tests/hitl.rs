use std::time::Duration;

use agent_framework::hitl::audit::ApprovalAudit;
use agent_framework::hitl::error::HitlError;
use agent_framework::hitl::request::{ApprovalRequest, ApprovalResponse, RiskLevel};
use agent_framework::hitl::strategies::{
    callback_response, AutoApprove, CallbackApproval, CallbackOutcome, ConsoleApproval, MockApproval,
};

fn json(text: &str) -> serde_json::Value {
    serde_json::from_str(text).unwrap()
}

#[test]
fn test_audit_record() {
    let mut audit = ApprovalAudit::new();
    let request = ApprovalRequest::new("Test", RiskLevel::Low).with_timeout(Duration::from_secs(10));
    let request_id = request.id.clone();

    audit.record(request, ApprovalResponse::Approved, 100);
    assert_eq!(audit.count(), 1);

    let record = audit.get(&request_id).unwrap();
    assert_eq!(record.duration_ms, 100);
    assert!(record.response.is_approved());
}

#[test]
fn test_get_all() {
    let mut audit = ApprovalAudit::new();
    for i in 0..3 {
        let req = ApprovalRequest::new(&format!("Action {}", i), RiskLevel::Medium).with_timeout(Duration::from_secs(10));
        audit.record(req, ApprovalResponse::Approved, 100);
    }
    assert_eq!(audit.get_all().len(), 3);
}

#[test]
fn test_clear() {
    let mut audit = ApprovalAudit::new();
    let req = ApprovalRequest::new("Test", RiskLevel::Low).with_timeout(Duration::from_secs(10));
    audit.record(req, ApprovalResponse::Approved, 100);
    assert_eq!(audit.count(), 1);
    audit.clear();
    assert_eq!(audit.count(), 0);
}

#[test]
fn audit_keeps_the_last_decision_per_request() {
    let mut audit = ApprovalAudit::new();
    let req = ApprovalRequest::new("Deploy", RiskLevel::High);
    let id = req.id.clone();
    audit.record(req.clone(), ApprovalResponse::Timeout, 5);
    audit.record(req, ApprovalResponse::Denied { reason: Some("no".to_string()) }, 7);
    assert_eq!(audit.count(), 1);
    let rec = audit.get(&id).unwrap();
    assert!(rec.response.is_denied());
    assert_eq!(rec.duration_ms, 7);
    assert!(audit.get("missing").is_none());
}

#[test]
fn test_auto_approve() {
    let strategy = AutoApprove::new();
    let req = ApprovalRequest::new("Dangerous action", RiskLevel::Critical).with_timeout(Duration::from_secs(10));
    let response = strategy.request_approval(req);
    assert!(response.is_approved());
    assert_eq!(strategy.name(), "auto_approve");
}

#[test]
fn test_console_creation() {
    let strategy = ConsoleApproval::new();
    assert_eq!(strategy.name(), "console");
}

#[test]
fn test_auto_approve_low_risk_setting() {
    let strategy = ConsoleApproval::new().auto_approve_low_risk(true);
    assert!(strategy.auto_approve_low_risk);
}

#[test]
fn console_decides_low_risk_only_when_enabled() {
    let low = ApprovalRequest::new("read", RiskLevel::Low);
    let high = ApprovalRequest::new("delete", RiskLevel::High);
    let eager = ConsoleApproval::new().auto_approve_low_risk(true);
    assert_eq!(eager.decide_without_asking(&low), Some(ApprovalResponse::Approved));
    assert_eq!(eager.decide_without_asking(&high), None);
    assert_eq!(ConsoleApproval::new().decide_without_asking(&low), None);
}

#[test]
fn console_answers() {
    assert_eq!(ConsoleApproval::response_for_answer("y\n"), ApprovalResponse::Approved);
    assert_eq!(ConsoleApproval::response_for_answer("  YES "), ApprovalResponse::Approved);
    assert_eq!(
        ConsoleApproval::response_for_answer("n"),
        ApprovalResponse::Denied { reason: Some("User denied via console".to_string()) }
    );
    assert!(ConsoleApproval::response_for_answer("").is_denied());
    assert!(ConsoleApproval::response_for_answer("yess").is_denied());
}

#[test]
fn test_always_approve() {
    let mut strategy = MockApproval::always_approve();
    let req = ApprovalRequest::new("Test", RiskLevel::High).with_timeout(Duration::from_secs(10));
    let response = strategy.request_approval(req);
    assert!(response.is_approved());
    assert_eq!(strategy.call_count(), 1);
}

#[test]
fn test_always_deny() {
    let mut strategy = MockApproval::always_deny("Test denial");
    let req = ApprovalRequest::new("Test", RiskLevel::High).with_timeout(Duration::from_secs(10));
    let response = strategy.request_approval(req);
    assert!(response.is_denied());
    assert_eq!(response, ApprovalResponse::Denied { reason: Some("Test denial".to_string()) });
}

#[test]
fn test_always_timeout() {
    let mut strategy = MockApproval::always_timeout();
    let req = ApprovalRequest::new("Test", RiskLevel::High).with_timeout(Duration::from_secs(10));
    assert!(strategy.request_approval(req).is_timeout());
}

#[test]
fn test_approve_n_times() {
    let mut strategy = MockApproval::approve_n_times(2);
    let req = ApprovalRequest::new("Test", RiskLevel::High).with_timeout(Duration::from_secs(10));

    assert!(strategy.request_approval(req.clone()).is_approved());
    assert!(strategy.request_approval(req.clone()).is_approved());
    let r3 = strategy.request_approval(req);
    assert!(r3.is_denied());
    assert_eq!(r3, ApprovalResponse::Denied { reason: Some("Exceeded 2 approvals".to_string()) });
    assert_eq!(strategy.call_count(), 3);
}

#[test]
fn test_always_modify() {
    let modified = json(r#"{"modified": true}"#);
    let mut strategy = MockApproval::always_modify(modified.clone());
    let req = ApprovalRequest::new("Test", RiskLevel::Medium).with_timeout(Duration::from_secs(10));
    match strategy.request_approval(req) {
        ApprovalResponse::Modified { modified_context } => assert_eq!(modified_context, modified),
        _ => panic!("Expected Modified response"),
    }
}

#[test]
fn test_reset_counter() {
    let mut strategy = MockApproval::always_approve();
    for _ in 0..5 {
        strategy.request_approval(ApprovalRequest::new("x", RiskLevel::Low));
    }
    assert_eq!(strategy.call_count(), 5);
    strategy.reset();
    assert_eq!(strategy.call_count(), 0);
    assert_eq!(strategy.name(), "mock");
}

#[test]
fn test_approval_request_creation() {
    let req = ApprovalRequest::new("Test action", RiskLevel::Medium);
    assert_eq!(req.risk_level, RiskLevel::Medium);
    assert!(!req.id.is_empty());
    assert_eq!(req.timeout, Duration::from_secs(30));
    assert!(req.context.is_none());
}

#[test]
fn test_approval_response_checks() {
    assert!(ApprovalResponse::Approved.is_approved());
    assert!(!ApprovalResponse::Approved.is_denied());

    assert!(ApprovalResponse::Denied { reason: None }.is_denied());
    assert!(!ApprovalResponse::Denied { reason: None }.is_approved());

    assert!(ApprovalResponse::Timeout.is_timeout());
    assert!(ApprovalResponse::Modified { modified_context: json("1") }.is_approved());
}

#[test]
fn request_with_context() {
    let req = ApprovalRequest::new("Test", RiskLevel::High).with_context(json(r#"{"key": "value"}"#));
    assert_eq!(req.risk_level, RiskLevel::High);
    assert!(req.context.is_some());
}

#[test]
fn hitl_error_test_error_creation() {
    let err = HitlError::strategy("test error");
    assert!(matches!(err, HitlError::StrategyError(_)));
}

#[test]
fn test_pending_count() {
    let mut strategy: CallbackApproval<u32> = CallbackApproval::new();
    assert_eq!(strategy.pending_count(), 0);
    strategy.register("test".to_string(), 1);
    assert_eq!(strategy.pending_count(), 1);
}

#[test]
fn test_cancel_request() {
    let mut strategy: CallbackApproval<u32> = CallbackApproval::new();
    strategy.register("test".to_string(), 1);
    let (waiter, response) = strategy.cancel("test").unwrap();
    assert_eq!(waiter, 1);
    assert_eq!(response, ApprovalResponse::Denied { reason: Some("Request cancelled".to_string()) });
    assert_eq!(strategy.pending_count(), 0);
    match strategy.cancel("test") {
        Err(HitlError::StrategyError(m)) => assert_eq!(m, "Request not found"),
        _ => panic!("expected an error"),
    }
}

#[test]
fn callback_submit_and_outcomes() {
    let mut strategy: CallbackApproval<&str> = CallbackApproval::new();
    strategy.register("r1".to_string(), "waiter-1");
    assert_eq!(strategy.submit_response("r1").unwrap(), "waiter-1");
    match strategy.submit_response("r1") {
        Err(HitlError::StrategyError(m)) => assert_eq!(m, "No pending request with ID: r1"),
        _ => panic!("expected an error"),
    }
    assert_eq!(callback_response(CallbackOutcome::TimedOut), ApprovalResponse::Timeout);
    assert_eq!(
        callback_response(CallbackOutcome::ChannelClosed),
        ApprovalResponse::Denied { reason: Some("Approval channel closed".to_string()) }
    );
    assert_eq!(callback_response(CallbackOutcome::Received(ApprovalResponse::Approved)), ApprovalResponse::Approved);
    assert!(strategy.is_async());
    assert_eq!(strategy.name(), "callback");
}

#[test]
fn console_answer_ignores_unicode_whitespace() {
    assert_eq!(ConsoleApproval::response_for_answer("\u{3000}y\u{a0}"), ApprovalResponse::Approved);
    assert!(ConsoleApproval::response_for_answer("y\u{200b}").is_denied());
}

#[test]
fn submitted_response_reaches_the_registered_waiter() {
    let mut strategy: CallbackApproval<u32> = CallbackApproval::new();
    strategy.register("other".to_string(), 7);
    let before = strategy.pending_count();
    strategy.register("req".to_string(), 42);
    assert_eq!(strategy.pending_count(), before + 1);
    assert_eq!(strategy.submit_response("req").unwrap(), 42);
    assert_eq!(strategy.pending_count(), before);
    let decision = ApprovalResponse::Denied { reason: Some("no".to_string()) };
    assert_eq!(callback_response(CallbackOutcome::Received(decision.clone())), decision);
}
