//! Guardrail violations and the contexts that guardrails check.

use vstd::prelude::*;
use vstd::string::*;
use crate::support::utc_now_millis;

verus! {

/// How serious a violation is.
#[derive(Debug, Clone, Copy, PartialEq, Eq, Structural)]
pub enum ViolationSeverity {
    Low,
    Medium,
    High,
    Critical,
}

/// What to do about a violation.
#[derive(Debug, Clone, Copy, PartialEq, Eq, Structural)]
pub enum ViolationAction {
    /// Record it only.
    Log,
    /// Warn, but let the action proceed.
    Warn,
    /// Stop the action.
    Block,
}

/// A guardrail's finding.
#[derive(Debug, Clone)]
pub struct Violation {
    /// Name of the guardrail that found it.
    pub guardrail: String,
    pub severity: ViolationSeverity,
    /// Human-readable description.
    pub message: String,
    /// Recommended action.
    pub action: ViolationAction,
    /// When it was found, milliseconds since the Unix epoch.
    pub timestamp: i64,
    /// Additional context.
    pub context: Option<serde_json::Value>,
}

impl Violation {
    pub fn new(guardrail: &str, severity: ViolationSeverity, message: &str, action: ViolationAction) -> (v: Violation)
        ensures
            v.guardrail@ == guardrail@,
            v.severity == severity,
            v.message@ == message@,
            v.action == action,
            v.context is None,
    {
        Violation {
            guardrail: String::from_str(guardrail),
            severity,
            message: String::from_str(message),
            action,
            timestamp: utc_now_millis(),
            context: None,
        }
    }

    /// The same violation with `context` attached.
    pub fn with_context(self, context: serde_json::Value) -> (v: Violation)
        ensures
            v.guardrail == self.guardrail,
            v.severity == self.severity,
            v.message == self.message,
            v.action == self.action,
            v.timestamp == self.timestamp,
            v.context == Some(context),
    {
        let mut v = self;
        v.context = Some(context);
        v
    }

    /// A violation stops execution exactly when its action is `Block`.
    pub fn should_block(&self) -> (b: bool)
        ensures
            b == (self.action == ViolationAction::Block),
    {
        self.action == ViolationAction::Block
    }
}

/// A user message to check.
#[derive(Debug, Clone)]
pub struct InputContext {
    pub message: String,
    pub user_id: Option<String>,
    pub session_id: Option<String>,
}

/// A model reply to check.
#[derive(Debug, Clone)]
pub struct OutputContext {
    pub response: String,
    pub model: String,
    pub tokens_used: Option<usize>,
}

/// A tool call to check.
#[derive(Debug, Clone)]
pub struct ToolCallContext {
    pub tool_name: String,
    pub parameters: serde_json::Value,
    pub user_id: Option<String>,
}

} // verus!
