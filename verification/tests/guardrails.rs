use std::time::Duration;

use agent_framework::guardrails::chain::{has_blocking_violations, ChainRun};
use agent_framework::guardrails::config::{ContentFilterConfig, CostLimiterConfig, GuardrailConfig, RateLimiterConfig, ToolAllowlistConfig};
use agent_framework::guardrails::content_filter::ContentFilter;
use agent_framework::guardrails::cost_limiter::{BudgetCheck, CostLimiter};
use agent_framework::guardrails::error::GuardrailError;
use agent_framework::guardrails::rate_limiter::RateLimiter;
use agent_framework::guardrails::tool_allowlist::ToolAllowlist;
use agent_framework::guardrails::violation::{InputContext, OutputContext, ToolCallContext, Violation, ViolationAction, ViolationSeverity};

fn json(text: &str) -> serde_json::Value {
    serde_json::from_str(text).unwrap()
}

fn input(message: &str, user_id: Option<&str>, session_id: Option<&str>) -> InputContext {
    InputContext {
        message: message.to_string(),
        user_id: user_id.map(|s| s.to_string()),
        session_id: session_id.map(|s| s.to_string()),
    }
}

fn always_block() -> Violation {
    Violation::new("always_block", ViolationSeverity::High, "Always blocks", ViolationAction::Block)
}

#[test]
fn guardrail_config_test_default_config() {
    let config = GuardrailConfig::default();
    assert!(!config.enabled);
}

#[test]
fn test_build_chain_disabled() {
    let config = GuardrailConfig::default();
    let chain = config.build_chain().unwrap();
    assert!(chain.is_none());
}

#[test]
fn test_build_chain_with_guardrails() {
    let config = GuardrailConfig {
        enabled: true,
        content_filter: ContentFilterConfig {
            enabled: true,
            blocked_phrases: vec!["test".to_string()],
            ..Default::default()
        },
        rate_limiter: RateLimiterConfig { enabled: true, ..Default::default() },
        ..Default::default()
    };

    let chain = config.build_chain().unwrap();
    assert!(chain.is_some());
    assert_eq!(chain.unwrap().len(), 2);
}

#[test]
fn build_chain_with_every_guardrail_and_a_bad_pattern() {
    let config = GuardrailConfig {
        enabled: true,
        content_filter: ContentFilterConfig { enabled: true, blocked_patterns: vec![r"\d+".to_string()], ..Default::default() },
        rate_limiter: RateLimiterConfig { enabled: true, ..Default::default() },
        cost_limiter: CostLimiterConfig { enabled: true, ..Default::default() },
        tool_allowlist: ToolAllowlistConfig { enabled: true, allowed_tools: vec!["calc".to_string()] },
    };
    let set = config.build_chain().unwrap().unwrap();
    assert_eq!(set.len(), 4);
    assert!(!set.is_empty());

    let bad = GuardrailConfig {
        enabled: true,
        content_filter: ContentFilterConfig { enabled: true, blocked_patterns: vec!["(".to_string()], ..Default::default() },
        ..Default::default()
    };
    match bad.build_chain() {
        Err(GuardrailError::Error(m)) => assert!(m.starts_with("Invalid regex: ")),
        _ => panic!("expected an invalid pattern"),
    }

    let enabled_but_empty = GuardrailConfig { enabled: true, ..Default::default() };
    assert!(enabled_but_empty.build_chain().unwrap().is_none());
}

#[test]
fn config_defaults() {
    let rl = RateLimiterConfig::default();
    assert!(!rl.enabled);
    assert_eq!(rl.max_requests, 100);
    assert_eq!(rl.window_seconds, 60);
    let cl = CostLimiterConfig::default();
    assert_eq!(cl.max_tokens, 10000);
    let cf = ContentFilterConfig::default();
    assert!(!cf.case_sensitive);
    assert!(cf.blocked_phrases.is_empty());
}

#[test]
fn test_blocked_phrase() {
    let filter = ContentFilter::new(vec!["badword".to_string()]);
    let violation = filter.check_input(&input("This contains badword in it", None, None));
    assert!(violation.is_some());
    assert!(violation.unwrap().should_block());
}

#[test]
fn test_case_insensitive() {
    let filter = ContentFilter::new(vec!["BLOCKED".to_string()]);
    let violation = filter.check_input(&input("This has blocked in lowercase", None, None));
    assert!(violation.is_some());
}

#[test]
fn case_sensitive_filter_passes_other_case() {
    let filter = ContentFilter::new(vec!["BLOCKED".to_string()]).case_sensitive(true);
    assert!(filter.check_input(&input("This has blocked in lowercase", None, None)).is_none());
    assert!(filter.check_input(&input("This has BLOCKED", None, None)).is_some());
}

#[test]
fn test_regex_pattern() {
    let filter = ContentFilter::new(vec![]).with_pattern(r"\d{3}-\d{2}-\d{4}").unwrap();
    let violation = filter.check_input(&input("My SSN is 123-45-6789", None, None));
    assert!(violation.is_some());
    assert_eq!(violation.unwrap().message, r"Matches blocked pattern: \d{3}-\d{2}-\d{4}");
}

#[test]
fn test_allowed_content() {
    let filter = ContentFilter::new(vec!["blocked".to_string()]);
    assert!(filter.check_input(&input("This is fine", None, None)).is_none());
}

#[test]
fn test_output_filtering() {
    let filter = ContentFilter::new(vec!["sensitive".to_string()]);
    let context = OutputContext { response: "This contains sensitive information".to_string(), model: "gpt-4".to_string(), tokens_used: None };
    let violation = filter.check_output(&context);
    assert!(violation.is_some());
    let v = violation.unwrap();
    assert_eq!(v.message, "Contains blocked phrase: sensitive");
    assert_eq!(v.guardrail, "content_filter");
    assert_eq!(v.severity, ViolationSeverity::High);
}

#[test]
fn invalid_pattern_is_refused() {
    match ContentFilter::new(vec![]).with_pattern("[unclosed") {
        Err(GuardrailError::Error(m)) => assert!(m.starts_with("Invalid regex: ")),
        _ => panic!("expected an error"),
    }
}

#[test]
fn content_filter_ignores_tool_calls() {
    let filter = ContentFilter::new(vec!["x".to_string()]);
    let ctx = ToolCallContext { tool_name: "x".to_string(), parameters: json("{}"), user_id: None };
    assert!(filter.check_tool_call(&ctx).is_none());
    assert_eq!(filter.name(), "content_filter");
}

#[test]
fn test_rate_limiter_allows_within_limit() {
    let mut limiter = RateLimiter::new(2, Duration::from_secs(10));
    let context = input("test", Some("user1"), None);
    assert!(limiter.check_input(&context).is_none());
    assert!(limiter.check_input(&context).is_none());
}

#[test]
fn test_rate_limiter_blocks_when_exceeded() {
    let mut limiter = RateLimiter::new(1, Duration::from_secs(10));
    let context = input("test", Some("user1"), None);
    assert!(limiter.check_input(&context).is_none());
    let v2 = limiter.check_input(&context);
    assert!(v2.is_some());
    let v = v2.unwrap();
    assert!(v.should_block());
    assert_eq!(v.message, "Rate limit exceeded for user: user1");
    assert_eq!(v.severity, ViolationSeverity::Medium);
}

#[test]
fn test_rate_limiter_refills_over_time() {
    let mut limiter = RateLimiter::with_window_nanos(1, 100_000_000);
    let context = input("test", Some("user1"), None);
    assert!(limiter.check_input_at(&context, 0).is_none());
    assert!(limiter.check_input_at(&context, 10_000_000).is_some());
    assert!(limiter.check_input_at(&context, 160_000_000).is_none());
}

#[test]
fn rate_limiter_refills_in_proportion() {
    let mut limiter = RateLimiter::with_window_nanos(4, 1_000);
    let context = input("m", None, None);
    for _ in 0..4 {
        assert!(limiter.check_input_at(&context, 0).is_none());
    }
    assert!(limiter.check_input_at(&context, 0).is_some());
    // A quarter of the window gives back one request.
    assert!(limiter.check_input_at(&context, 250).is_none());
    assert!(limiter.check_input_at(&context, 250).is_some());
}

#[test]
fn test_different_users_independent() {
    let mut limiter = RateLimiter::new(1, Duration::from_secs(10));
    assert!(limiter.check_input(&input("test", Some("user1"), None)).is_none());
    assert!(limiter.check_input(&input("test", Some("user2"), None)).is_none());
}

#[test]
fn rate_limiter_with_zero_requests_blocks_default_user() {
    let mut limiter = RateLimiter::new(0, Duration::from_secs(1));
    let v = limiter.check_input(&input("x", None, None)).unwrap();
    assert_eq!(v.message, "Rate limit exceeded for user: default");
}

#[test]
fn test_cost_limiter_allows_within_budget() {
    let limiter = CostLimiter::new(1000);
    match limiter.check_budget(&input("test", None, Some("session1"))) {
        BudgetCheck::Within(n) => assert_eq!(n, 0),
        BudgetCheck::Exceeded(_) => panic!("expected within budget"),
    }
}

#[test]
fn test_cost_limiter_blocks_when_exceeded() {
    let mut limiter = CostLimiter::new(100);
    limiter.usage.insert("session1".to_string(), 100);
    match limiter.check_budget(&input("test", None, Some("session1"))) {
        BudgetCheck::Exceeded(v) => {
            assert!(v.should_block());
            assert_eq!(v.message, "Token budget exceeded: 100 / 100");
        }
        BudgetCheck::Within(_) => panic!("expected exceeded"),
    }
}

#[test]
fn test_get_usage_and_remaining() {
    let mut limiter = CostLimiter::new(1000);
    limiter.usage.insert("session1".to_string(), 300);
    assert_eq!(limiter.get_usage("session1"), 300);
    assert_eq!(limiter.get_remaining("session1"), 700);
}

#[test]
fn remaining_never_goes_below_zero() {
    let mut limiter = CostLimiter::new(10);
    limiter.usage.insert("s".to_string(), 25);
    assert_eq!(limiter.get_remaining("s"), 0);
    assert_eq!(limiter.get_remaining("other"), 10);
}

#[test]
fn test_reset_usage() {
    let mut limiter = CostLimiter::new(1000);
    limiter.usage.insert("session1".to_string(), 500);
    limiter.reset("session1");
    assert_eq!(limiter.get_usage("session1"), 0);
}

#[test]
fn cost_limiter_charges_outputs_to_default_session() {
    let mut limiter = CostLimiter::new(100);
    let out = OutputContext { response: "r".to_string(), model: "m".to_string(), tokens_used: Some(40) };
    assert!(limiter.check_output(&out).is_none());
    assert!(limiter.check_output(&out).is_none());
    assert_eq!(limiter.get_usage("default"), 80);
    let none = OutputContext { response: "r".to_string(), model: "m".to_string(), tokens_used: None };
    limiter.check_output(&none);
    assert_eq!(limiter.get_usage("default"), 80);
    match limiter.check_budget(&input("x", None, None)) {
        BudgetCheck::Within(n) => assert_eq!(n, 80),
        BudgetCheck::Exceeded(_) => panic!("expected within budget"),
    }
}

#[test]
fn test_allowed_tool() {
    let allowlist = ToolAllowlist::new(vec!["calculator".to_string(), "echo".to_string()]);
    let context = ToolCallContext { tool_name: "calculator".to_string(), parameters: json("{}"), user_id: None };
    assert!(allowlist.check_tool_call(&context).is_none());
}

#[test]
fn test_blocked_tool() {
    let allowlist = ToolAllowlist::new(vec!["calculator".to_string()]);
    let context = ToolCallContext { tool_name: "dangerous_tool".to_string(), parameters: json("{}"), user_id: None };
    let violation = allowlist.check_tool_call(&context);
    assert!(violation.is_some());
    let v = violation.unwrap();
    assert!(v.should_block());
    assert_eq!(v.message, "Tool 'dangerous_tool' is not in allowlist");
    let ctx = v.context.unwrap();
    assert_eq!(ctx["tool"], "dangerous_tool");
    assert_eq!(ctx["allowed_tools"][0], "calculator");
}

#[test]
fn test_is_allowed() {
    let allowlist = ToolAllowlist::new(vec!["calc".to_string()]);
    assert!(allowlist.is_allowed("calc"));
    assert!(!allowlist.is_allowed("other"));
}

#[test]
fn test_allow_method() {
    let allowlist = ToolAllowlist::new(vec![]).allow("tool1").allow("tool2");
    assert!(allowlist.is_allowed("tool1"));
    assert!(allowlist.is_allowed("tool2"));
    assert_eq!(allowlist.allowed_tools().len(), 2);
}

#[test]
fn allowlist_keeps_each_tool_once() {
    let allowlist = ToolAllowlist::new(vec!["a".to_string(), "a".to_string()]).allow("a");
    assert_eq!(allowlist.allowed_tools(), vec!["a".to_string()]);
}

#[test]
fn test_violation_creation() {
    let violation = Violation::new("test_guard", ViolationSeverity::High, "Test violation", ViolationAction::Block);
    assert_eq!(violation.guardrail, "test_guard");
    assert_eq!(violation.severity, ViolationSeverity::High);
    assert!(violation.should_block());
}

#[test]
fn test_violation_with_context() {
    let violation = Violation::new("test", ViolationSeverity::Low, "Test", ViolationAction::Log)
        .with_context(json(r#"{"key": "value"}"#));
    assert!(violation.context.is_some());
    assert!(!violation.should_block());
}

#[test]
fn guardrails_error_test_error_creation() {
    let err = GuardrailError::error("test error");
    assert!(matches!(err, GuardrailError::Error(_)));
}

#[test]
fn test_check_input_with_violation() {
    let mut run = ChainRun::new(false);
    run.record(Some(always_block()));
    let violations = run.finish();
    assert_eq!(violations.len(), 1);
    assert!(has_blocking_violations(&violations));
}

#[test]
fn test_fail_fast_mode() {
    let mut run = ChainRun::new(true);
    for _ in 0..2 {
        if run.record(Some(always_block())) {
            break;
        }
    }
    assert!(run.is_stopped());
    assert_eq!(run.finish().len(), 1);
}

#[test]
fn test_collect_all_mode() {
    let mut run = ChainRun::new(false);
    for _ in 0..2 {
        if run.record(Some(always_block())) {
            break;
        }
    }
    assert!(!run.is_stopped());
    assert_eq!(run.finish().len(), 2);
}

#[test]
fn fail_fast_stops_at_the_first_violation_of_any_action() {
    let warn = Violation::new("w", ViolationSeverity::Medium, "warn", ViolationAction::Warn);
    let mut run = ChainRun::new(true);
    assert!(!run.record(None));
    assert!(run.record(Some(warn.clone())));
    assert!(run.is_stopped());
    let vs = run.finish();
    assert_eq!(vs.len(), 1);
    assert_eq!(vs[0].action, ViolationAction::Warn);
    assert!(!has_blocking_violations(&vs));

    let mut collect = ChainRun::new(false);
    assert!(!collect.record(Some(warn)));
    assert!(!collect.record(Some(always_block())));
    assert_eq!(collect.finish().len(), 2);
}

#[test]
fn rate_limiter_window_in_nanoseconds() {
    assert_eq!(RateLimiter::new(3, Duration::from_millis(100)).window_nanos, 100_000_000);
    assert_eq!(RateLimiter::new(3, Duration::from_secs(u64::MAX)).window_nanos, u64::MAX);
}

#[test]
fn refused_tool_context_lists_the_allowed_tools() {
    let allowlist = ToolAllowlist::new(vec!["calc".to_string(), "search".to_string()]);
    let context = ToolCallContext { tool_name: "rm".to_string(), parameters: json("{}"), user_id: None };
    let ctx = allowlist.check_tool_call(&context).unwrap().context.unwrap();
    let obj = ctx.as_object().unwrap();
    assert_eq!(obj.len(), 2);
    assert_eq!(ctx["tool"], "rm");
    let mut names: Vec<String> = ctx["allowed_tools"].as_array().unwrap().iter().map(|v| v.as_str().unwrap().to_string()).collect();
    names.sort();
    assert_eq!(names, vec!["calc".to_string(), "search".to_string()]);
}

#[test]
fn granted_requests_over_time_stay_within_the_refill() {
    // Two requests per window of 100 ns; requests at 0, 0, 0, 10, 50, 50, 120.
    let mut limiter = RateLimiter::with_window_nanos(2, 100);
    let times: [u128; 7] = [0, 0, 0, 10, 50, 50, 120];
    let mut granted = 0u128;
    let mut first = None;
    for t in times {
        let g = limiter.check_rate("u", t);
        if first.is_none() {
            first = Some(g);
        }
        if g {
            granted += 1;
        }
    }
    assert_eq!(first, Some(true));
    // At most max + max * (tk - t1) / window = 2 + 2 * 120 / 100 = 4.
    assert!(granted <= 4);
    assert_eq!(granted, 4);
}

#[test]
fn rate_check_now_blocks_with_medium_severity() {
    let mut limiter = RateLimiter::new(1, Duration::from_secs(10));
    let context = input("hi", Some("user1"), None);
    assert!(limiter.check_input(&context).is_none());
    let v = limiter.check_input(&context).unwrap();
    assert_eq!(v.severity, ViolationSeverity::Medium);
    assert_eq!(v.action, ViolationAction::Block);
    assert_eq!(v.message, "Rate limit exceeded for user: user1");
}

#[test]
fn a_pass_names_guardrails_in_order_and_ends_at_an_error() {
    let mut run = ChainRun::new(false);
    assert_eq!(run.next_guardrail(3), Some(0));
    run.record(None);
    assert_eq!(run.next_guardrail(3), Some(1));
    run.record(Some(always_block()));
    assert_eq!(run.next_guardrail(3), Some(2));
    run.record_error(GuardrailError::error("broken"));
    assert_eq!(run.next_guardrail(3), None);
    match run.outcome() {
        Err(GuardrailError::Error(m)) => assert_eq!(m, "broken"),
        _ => panic!("expected the guardrail's error"),
    }

    let mut fast = ChainRun::new(true);
    assert_eq!(fast.next_guardrail(2), Some(0));
    fast.record(Some(always_block()));
    assert_eq!(fast.next_guardrail(2), None);
    assert_eq!(fast.outcome().unwrap().len(), 1);

    let mut all = ChainRun::new(false);
    while let Some(_) = all.next_guardrail(2) {
        all.record(None);
    }
    assert!(all.outcome().unwrap().is_empty());
}
