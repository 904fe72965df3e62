//! Approval requests and responses.

use vstd::prelude::*;
use vstd::string::*;
use crate::support::{duration_from_secs, nanos_of, new_uuid_string, utc_now_millis};

verus! {

/// How risky an action is.
#[derive(Debug, Clone, Copy, PartialEq, Eq, Structural)]
pub enum RiskLevel {
    /// Reads, safe calculations.
    Low,
    /// Writes, API calls.
    Medium,
    /// Deletions, outside access.
    High,
    /// System-level operations.
    Critical,
}

/// A request for a human decision.
#[derive(Debug, Clone)]
pub struct ApprovalRequest {
    pub id: String,
    /// What the action is.
    pub action: String,
    pub risk_level: RiskLevel,
    /// Tool parameters, cost estimates and the like.
    pub context: Option<serde_json::Value>,
    /// How long to wait for the decision.
    pub timeout: std::time::Duration,
    /// Creation time, milliseconds since the Unix epoch.
    pub created_at: i64,
}

impl ApprovalRequest {
    /// A request with a fresh id, no context and a 30-second timeout.
    pub fn new(action: &str, risk_level: RiskLevel) -> (r: ApprovalRequest)
        ensures
            r.action@ == action@,
            r.risk_level == risk_level,
            r.context is None,
            r.id@.len() == 36,
            nanos_of(r.timeout) == 30_000_000_000,
    {
        ApprovalRequest {
            id: new_uuid_string(),
            action: String::from_str(action),
            risk_level,
            context: None,
            timeout: duration_from_secs(30),
            created_at: utc_now_millis(),
        }
    }

    pub fn with_context(self, context: serde_json::Value) -> (r: ApprovalRequest)
        ensures
            r.context == Some(context),
            r.id == self.id,
            r.action == self.action,
            r.risk_level == self.risk_level,
            r.timeout == self.timeout,
            r.created_at == self.created_at,
    {
        let mut r = self;
        r.context = Some(context);
        r
    }

    pub fn with_timeout(self, timeout: std::time::Duration) -> (r: ApprovalRequest)
        ensures
            r.timeout == timeout,
            r.id == self.id,
            r.action == self.action,
            r.risk_level == self.risk_level,
            r.context == self.context,
            r.created_at == self.created_at,
    {
        let mut r = self;
        r.timeout = timeout;
        r
    }

    /// A copy of the request.
    pub fn duplicate(&self) -> (r: ApprovalRequest)
        ensures
            r.id@ == self.id@,
            r.action@ == self.action@,
            r.risk_level == self.risk_level,
            r.context == self.context,
            r.timeout == self.timeout,
            r.created_at == self.created_at,
            same_request(r, *self),
    {
        ApprovalRequest {
            id: self.id.clone(),
            action: self.action.clone(),
            risk_level: self.risk_level,
            context: match &self.context {
                Some(c) => Some(c.clone()),
                None => None,
            },
            timeout: self.timeout,
            created_at: self.created_at,
        }
    }
}

/// Whether two requests hold the same values.
pub open spec fn same_request(a: ApprovalRequest, b: ApprovalRequest) -> bool {
    &&& a.id@ == b.id@
    &&& a.action@ == b.action@
    &&& a.risk_level == b.risk_level
    &&& a.context == b.context
    &&& a.timeout == b.timeout
    &&& a.created_at == b.created_at
}

/// Whether two responses hold the same decision.
pub open spec fn same_response(a: ApprovalResponse, b: ApprovalResponse) -> bool {
    match (a, b) {
        (ApprovalResponse::Approved, ApprovalResponse::Approved) => true,
        (ApprovalResponse::Denied { reason: r1 }, ApprovalResponse::Denied { reason: r2 }) =>
            crate::comms::message::opt_text(r1) == crate::comms::message::opt_text(r2),
        (ApprovalResponse::Modified { modified_context: c1 }, ApprovalResponse::Modified { modified_context: c2 }) => c1 == c2,
        (ApprovalResponse::Timeout, ApprovalResponse::Timeout) => true,
        _ => false,
    }
}

/// A human decision.
#[derive(Debug, Clone, PartialEq, Eq)]
pub enum ApprovalResponse {
    /// Proceed.
    Approved,
    /// Do not proceed.
    Denied { reason: Option<String> },
    /// Proceed with changed parameters.
    Modified { modified_context: serde_json::Value },
    /// No decision in time.
    Timeout,
}

impl ApprovalResponse {
    /// Approved, possibly with changes.
    pub fn is_approved(&self) -> (b: bool)
        ensures
            b == (self is Approved || self is Modified),
    {
        match self {
            ApprovalResponse::Approved => true,
            ApprovalResponse::Modified { .. } => true,
            _ => false,
        }
    }

    pub fn is_denied(&self) -> (b: bool)
        ensures
            b == self is Denied,
    {
        match self {
            ApprovalResponse::Denied { .. } => true,
            _ => false,
        }
    }

    pub fn is_timeout(&self) -> (b: bool)
        ensures
            b == self is Timeout,
    {
        match self {
            ApprovalResponse::Timeout => true,
            _ => false,
        }
    }

    /// A copy of the response.
    pub fn duplicate(&self) -> (r: ApprovalResponse)
        ensures
            r is Approved <==> self is Approved,
            r is Timeout <==> self is Timeout,
            r is Denied <==> self is Denied,
            r is Modified <==> self is Modified,
            self is Denied ==> crate::comms::message::opt_text(r->reason) == crate::comms::message::opt_text(self->reason),
            self is Modified ==> r->modified_context == self->modified_context,
            same_response(r, *self),
    {
        match self {
            ApprovalResponse::Approved => ApprovalResponse::Approved,
            ApprovalResponse::Denied { reason } => ApprovalResponse::Denied {
                reason: match reason {
                    Some(r) => Some(r.clone()),
                    None => None,
                },
            },
            ApprovalResponse::Modified { modified_context } => ApprovalResponse::Modified { modified_context: modified_context.clone() },
            ApprovalResponse::Timeout => ApprovalResponse::Timeout,
        }
    }
}

} // verus!
