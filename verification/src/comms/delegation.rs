//! Records of task delegation, task results and escalation.

use vstd::prelude::*;
use vstd::string::*;
use crate::support::{JsonView, json_null, json_view, new_uuid_string};

verus! {

/// How agents interact.
#[derive(Debug, Clone, Copy, PartialEq, Eq, Structural)]
pub enum CoordinationPattern {
    /// One to all team members, no response.
    Broadcast,
    /// One to one, waiting for the response.
    RequestResponse,
    /// From a coordinator to a worker, fire and forget.
    TaskDelegation,
    /// Among equals.
    PeerCollaboration,
    /// From a worker to its supervisor.
    Escalation,
}

/// A task handed from a coordinator to a worker.
#[derive(Debug, Clone)]
pub struct DelegationRequest {
    pub task_id: String,
    pub description: String,
    pub from_coordinator: String,
    pub to_worker: String,
    /// Priority from 0 to 10, 10 the highest.
    pub priority: u8,
    /// Deadline, milliseconds since the Unix epoch.
    pub deadline: Option<i64>,
    pub context: serde_json::Value,
}

impl DelegationRequest {
    /// A request with a fresh task id, priority 5, no deadline and no context.
    pub fn new(from_coordinator: &str, to_worker: &str, description: &str) -> (r: DelegationRequest)
        ensures
            r.from_coordinator@ == from_coordinator@,
            r.to_worker@ == to_worker@,
            r.description@ == description@,
            r.priority == 5,
            r.deadline is None,
            r.task_id@.len() == 36,
            json_view(r.context) == JsonView::Null,
    {
        DelegationRequest {
            task_id: new_uuid_string(),
            description: String::from_str(description),
            from_coordinator: String::from_str(from_coordinator),
            to_worker: String::from_str(to_worker),
            priority: 5,
            deadline: None,
            context: json_null(),
        }
    }

    /// Whether two requests hold the same values, field by field.
    pub open spec fn same_as(&self, other: &DelegationRequest) -> bool {
        &&& self.task_id@ == other.task_id@
        &&& self.description@ == other.description@
        &&& self.from_coordinator@ == other.from_coordinator@
        &&& self.to_worker@ == other.to_worker@
        &&& self.priority == other.priority
        &&& self.deadline == other.deadline
        &&& self.context == other.context
    }

    /// A copy of the request.
    pub fn duplicate(&self) -> (r: DelegationRequest)
        ensures
            r.same_as(self),
    {
        DelegationRequest {
            task_id: self.task_id.clone(),
            description: self.description.clone(),
            from_coordinator: self.from_coordinator.clone(),
            to_worker: self.to_worker.clone(),
            priority: self.priority,
            deadline: self.deadline,
            context: self.context.clone(),
        }
    }

    /// Sets the priority, capped at 10.
    pub fn with_priority(self, priority: u8) -> (r: DelegationRequest)
        ensures
            r.priority == if priority > 10 { 10 } else { priority },
            r.task_id == self.task_id,
            r.description == self.description,
            r.from_coordinator == self.from_coordinator,
            r.to_worker == self.to_worker,
            r.deadline == self.deadline,
            r.context == self.context,
    {
        let mut r = self;
        r.priority = if priority > 10 { 10 } else { priority };
        r
    }

    pub fn with_context(self, context: serde_json::Value) -> (r: DelegationRequest)
        ensures
            r.context == context,
            r.task_id == self.task_id,
            r.description == self.description,
            r.from_coordinator == self.from_coordinator,
            r.to_worker == self.to_worker,
            r.priority == self.priority,
            r.deadline == self.deadline,
    {
        let mut r = self;
        r.context = context;
        r
    }
}

/// A worker's report on a task.
#[derive(Debug, Clone)]
pub struct DelegationResult {
    pub task_id: String,
    pub success: bool,
    pub result: Option<serde_json::Value>,
    pub error: Option<String>,
    pub from_worker: String,
}

impl DelegationResult {
    pub fn success(task_id: &str, from_worker: &str, result: serde_json::Value) -> (r: DelegationResult)
        ensures
            r.task_id@ == task_id@,
            r.success,
            r.result == Some(result),
            r.error is None,
            r.from_worker@ == from_worker@,
    {
        DelegationResult {
            task_id: String::from_str(task_id),
            success: true,
            result: Some(result),
            error: None,
            from_worker: String::from_str(from_worker),
        }
    }

    pub fn failure(task_id: &str, from_worker: &str, error: &str) -> (r: DelegationResult)
        ensures
            r.task_id@ == task_id@,
            !r.success,
            r.result is None,
            r.error matches Some(e) && e@ == error@,
            r.from_worker@ == from_worker@,
    {
        DelegationResult {
            task_id: String::from_str(task_id),
            success: false,
            result: None,
            error: Some(String::from_str(error)),
            from_worker: String::from_str(from_worker),
        }
    }
}

/// A worker asking its supervisor for help.
#[derive(Debug, Clone)]
pub struct EscalationRequest {
    pub id: String,
    pub from_worker: String,
    pub to_supervisor: String,
    pub reason: String,
    pub context: serde_json::Value,
    pub task_id: Option<String>,
}

impl EscalationRequest {
    pub fn new(from_worker: &str, to_supervisor: &str, reason: &str) -> (r: EscalationRequest)
        ensures
            r.from_worker@ == from_worker@,
            r.to_supervisor@ == to_supervisor@,
            r.reason@ == reason@,
            r.task_id is None,
            r.id@.len() == 36,
            json_view(r.context) == JsonView::Null,
    {
        EscalationRequest {
            id: new_uuid_string(),
            from_worker: String::from_str(from_worker),
            to_supervisor: String::from_str(to_supervisor),
            reason: String::from_str(reason),
            context: json_null(),
            task_id: None,
        }
    }

    pub fn with_task(self, task_id: &str) -> (r: EscalationRequest)
        ensures
            r.task_id matches Some(t) && t@ == task_id@,
            r.id == self.id,
            r.from_worker == self.from_worker,
            r.to_supervisor == self.to_supervisor,
            r.reason == self.reason,
            r.context == self.context,
    {
        let mut r = self;
        r.task_id = Some(String::from_str(task_id));
        r
    }

    pub fn with_context(self, context: serde_json::Value) -> (r: EscalationRequest)
        ensures
            r.context == context,
            r.id == self.id,
            r.from_worker == self.from_worker,
            r.to_supervisor == self.to_supervisor,
            r.reason == self.reason,
            r.task_id == self.task_id,
    {
        let mut r = self;
        r.context = context;
        r
    }
}

} // verus!
