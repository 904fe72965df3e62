//! The decisions of the built-in approval strategies. Waiting for a person,
//! a console or a callback is left to the asynchronous strategies that use these.

use vstd::prelude::*;
use vstd::string::*;
use crate::hitl::request::{ApprovalRequest, ApprovalResponse, RiskLevel};
use crate::hitl::error::HitlError;
use crate::table::Table;
use crate::support::{decimal, decimal_string, join2, join3, lowercase_of, to_lowercase, trim, trimmed_of, text_eq};
use crate::comms::message::opt_text;

verus! {

/// Approves every request.
pub struct AutoApprove;

impl AutoApprove {
    /// The name it is known by, `auto_approve`.
    pub fn name(&self) -> (n: &str)
        ensures
            n@ == "auto_approve"@,
    {
        "auto_approve"
    }
    pub fn new() -> (a: AutoApprove) {
        AutoApprove
    }

    pub fn request_approval(&self, request: ApprovalRequest) -> (r: ApprovalResponse)
        ensures
            r is Approved,
    {
        ApprovalResponse::Approved
    }
}

/// Asks at the console, optionally approving low-risk actions without asking.
pub struct ConsoleApproval {
    pub auto_approve_low_risk: bool,
}

/// Whether a console answer approves: "y" or "yes", ignoring case and surrounding whitespace.
pub open spec fn console_approves(input: Seq<char>) -> bool {
    lowercase_of(trimmed_of(input)) == "y"@ || lowercase_of(trimmed_of(input)) == "yes"@
}

impl ConsoleApproval {
    /// The name it is known by, `console`.
    pub fn name(&self) -> (n: &str)
        ensures
            n@ == "console"@,
    {
        "console"
    }
    pub fn new() -> (c: ConsoleApproval)
        ensures
            !c.auto_approve_low_risk,
    {
        ConsoleApproval { auto_approve_low_risk: false }
    }

    pub fn auto_approve_low_risk(self, enabled: bool) -> (c: ConsoleApproval)
        ensures
            c.auto_approve_low_risk == enabled,
    {
        ConsoleApproval { auto_approve_low_risk: enabled }
    }

    /// The decision made without asking: approval of a low-risk action when
    /// that is turned on; otherwise none, and the person must be asked.
    pub fn decide_without_asking(&self, request: &ApprovalRequest) -> (r: Option<ApprovalResponse>)
        ensures
            r is Some <==> self.auto_approve_low_risk && request.risk_level == RiskLevel::Low,
            r matches Some(x) ==> x is Approved,
    {
        if self.auto_approve_low_risk && request.risk_level == RiskLevel::Low {
            Some(ApprovalResponse::Approved)
        } else {
            None
        }
    }

    /// The decision a console answer gives.
    pub fn response_for_answer(input: &str) -> (r: ApprovalResponse)
        ensures
            console_approves(input@) ==> r is Approved,
            !console_approves(input@) ==> (r matches ApprovalResponse::Denied { reason }
                && opt_text(reason) == Some("User denied via console"@)),
    {
        let answer = to_lowercase(trim(input));
        proof {
            reveal_strlit("y");
            reveal_strlit("yes");
            reveal_strlit("User denied via console");
        }
        if text_eq(answer.as_str(), "y") || text_eq(answer.as_str(), "yes") {
            ApprovalResponse::Approved
        } else {
            ApprovalResponse::Denied { reason: Some(String::from_str("User denied via console")) }
        }
    }
}

/// How a mock strategy answers.
#[derive(Debug, Clone)]
pub enum MockMode {
    AlwaysApprove,
    /// Denies with the reason.
    AlwaysDeny(String),
    AlwaysTimeout,
    /// Approves the first n calls, then denies.
    ApproveNTimes(usize),
    /// Approves with the changed context.
    AlwaysModify(serde_json::Value),
}

/// The reason given once the approvals of `ApproveNTimes(n)` are used up.
pub open spec fn exceeded_reason(n: nat) -> Seq<char> {
    "Exceeded "@ + decimal(n) + " approvals"@
}

/// A strategy for tests, answering by its mode and counting its calls.
pub struct MockApproval {
    pub mode: MockMode,
    pub call_count: usize,
}

impl MockApproval {
    /// The name it is known by, `mock`.
    pub fn name(&self) -> (n: &str)
        ensures
            n@ == "mock"@,
    {
        "mock"
    }
    pub fn always_approve() -> (m: MockApproval)
        ensures
            m.mode is AlwaysApprove,
            m.call_count == 0,
    {
        MockApproval { mode: MockMode::AlwaysApprove, call_count: 0 }
    }

    pub fn always_deny(reason: &str) -> (m: MockApproval)
        ensures
            m.mode matches MockMode::AlwaysDeny(r) && r@ == reason@,
            m.call_count == 0,
    {
        MockApproval { mode: MockMode::AlwaysDeny(String::from_str(reason)), call_count: 0 }
    }

    pub fn always_timeout() -> (m: MockApproval)
        ensures
            m.mode is AlwaysTimeout,
            m.call_count == 0,
    {
        MockApproval { mode: MockMode::AlwaysTimeout, call_count: 0 }
    }

    pub fn approve_n_times(n: usize) -> (m: MockApproval)
        ensures
            m.mode == MockMode::ApproveNTimes(n),
            m.call_count == 0,
    {
        MockApproval { mode: MockMode::ApproveNTimes(n), call_count: 0 }
    }

    pub fn always_modify(modified: serde_json::Value) -> (m: MockApproval)
        ensures
            m.mode == MockMode::AlwaysModify(modified),
            m.call_count == 0,
    {
        MockApproval { mode: MockMode::AlwaysModify(modified), call_count: 0 }
    }

    /// How many times the mock was asked.
    pub fn call_count(&self) -> (n: usize)
        ensures
            n == self.call_count,
    {
        self.call_count
    }

    /// Sets the counter back to zero.
    pub fn reset(&mut self)
        ensures
            final(self).call_count == 0,
            final(self).mode == old(self).mode,
    {
        self.call_count = 0;
    }

    /// Answers a request by the mode; the counter goes up by one (wrapping as
    /// an atomic counter does), and `ApproveNTimes(n)` approves exactly while
    /// the count before the call is below `n`.
    pub fn request_approval(&mut self, request: ApprovalRequest) -> (r: ApprovalResponse)
        ensures
            final(self).mode == old(self).mode,
            final(self).call_count == if old(self).call_count == usize::MAX { 0 } else { (old(self).call_count + 1) as usize },
            match old(self).mode {
                MockMode::AlwaysApprove => r is Approved,
                MockMode::AlwaysDeny(reason) => r matches ApprovalResponse::Denied { reason: rr } && opt_text(rr) == Some(reason@),
                MockMode::AlwaysTimeout => r is Timeout,
                MockMode::ApproveNTimes(n) => if old(self).call_count < n {
                    r is Approved
                } else {
                    r matches ApprovalResponse::Denied { reason: rr } && opt_text(rr) == Some(exceeded_reason(n as nat))
                },
                MockMode::AlwaysModify(v) => r matches ApprovalResponse::Modified { modified_context } && modified_context == v,
            },
    {
        let count = self.call_count;
        self.call_count = if count == usize::MAX { 0 } else { count + 1 };
        match &self.mode {
            MockMode::AlwaysApprove => ApprovalResponse::Approved,
            MockMode::AlwaysDeny(reason) => ApprovalResponse::Denied { reason: Some(reason.clone()) },
            MockMode::AlwaysTimeout => ApprovalResponse::Timeout,
            MockMode::ApproveNTimes(n) => {
                if count < *n {
                    ApprovalResponse::Approved
                } else {
                    proof {
                        reveal_strlit("Exceeded ");
                        reveal_strlit(" approvals");
                    }
                    let text = join3("Exceeded ", decimal_string(*n as u64).as_str(), " approvals");
                    ApprovalResponse::Denied { reason: Some(text) }
                }
            },
            MockMode::AlwaysModify(v) => ApprovalResponse::Modified { modified_context: v.clone() },
        }
    }
}

/// `ApproveNTimes(n)`: of the first `k` calls after creation, exactly `min(k, n)` are approved.
pub open spec fn approvals_in_first_calls(n: nat, k: nat) -> nat
    decreases k,
{
    if k == 0 {
        0
    } else {
        approvals_in_first_calls(n, (k - 1) as nat) + if (k - 1) < n { 1nat } else { 0nat }
    }
}

/// Of the first `k` calls of `approve_n_times(n)`, `min(k, n)` are approved.
pub proof fn lemma_approve_n_times_count(n: nat, k: nat)
    ensures
        approvals_in_first_calls(n, k) == if k < n { k } else { n },
    decreases k,
{
    if k > 0 {
        lemma_approve_n_times_count(n, (k - 1) as nat);
    }
}

/// How waiting for a callback decision ended.
pub enum CallbackOutcome {
    /// A decision was submitted.
    Received(ApprovalResponse),
    /// The channel closed without a decision.
    ChannelClosed,
    /// No decision in time.
    TimedOut,
}

/// The response a callback strategy gives for how the wait ended.
pub fn callback_response(outcome: CallbackOutcome) -> (r: ApprovalResponse)
    ensures
        match outcome {
            CallbackOutcome::Received(x) => r == x,
            CallbackOutcome::ChannelClosed => r matches ApprovalResponse::Denied { reason }
                && opt_text(reason) == Some("Approval channel closed"@),
            CallbackOutcome::TimedOut => r is Timeout,
        },
{
    match outcome {
        CallbackOutcome::Received(x) => x,
        CallbackOutcome::ChannelClosed => {
            proof { reveal_strlit("Approval channel closed"); }
            ApprovalResponse::Denied { reason: Some(String::from_str("Approval channel closed")) }
        },
        CallbackOutcome::TimedOut => ApprovalResponse::Timeout,
    }
}

/// The decision sent to a request that is cancelled.
pub fn cancelled_response() -> (r: ApprovalResponse)
    ensures
        r matches ApprovalResponse::Denied { reason } && opt_text(reason) == Some("Request cancelled"@),
{
    proof { reveal_strlit("Request cancelled"); }
    ApprovalResponse::Denied { reason: Some(String::from_str("Request cancelled")) }
}

/// The requests that wait for a decision from outside (a web page, a chat
/// bot, a queue), each with the waiting side `S` that the decision is handed to.
pub struct CallbackApproval<S> {
    /// Request id to its waiting side.
    pub pending: Table<S>,
}

impl<S> CallbackApproval<S> {
    pub open spec fn wf(&self) -> bool {
        self.pending.wf()
    }

    /// No request waits.
    pub fn new() -> (c: CallbackApproval<S>)
        ensures
            c.wf(),
            c.pending.view() == Map::<Seq<char>, S>::empty(),
    {
        CallbackApproval { pending: Table::new() }
    }

    /// The strategy's name, `callback`.
    pub fn name(&self) -> (n: &str)
        ensures
            n@ == "callback"@,
    {
        "callback"
    }

    /// Decisions arrive from outside, after the request is made.
    pub fn is_async(&self) -> (b: bool)
        ensures
            b,
    {
        true
    }

    /// Makes a request wait, replacing any earlier waiter of the same id.
    pub fn register(&mut self, request_id: String, waiter: S)
        requires
            old(self).wf(),
        ensures
            final(self).wf(),
            final(self).pending.view() == old(self).pending.view().insert(request_id@, waiter),
    {
        self.pending.insert(request_id, waiter);
    }

    /// Takes the waiter of a request to hand it a submitted decision; an
    /// error when no request of that id waits.
    pub fn submit_response(&mut self, request_id: &str) -> (r: Result<S, HitlError>)
        requires
            old(self).wf(),
        ensures
            final(self).wf(),
            final(self).pending.view() == old(self).pending.view().remove(request_id@),
            r is Ok <==> old(self).pending.view().contains_key(request_id@),
            r matches Ok(w) ==> w == old(self).pending.view()[request_id@],
            r matches Err(e) ==> (e matches HitlError::StrategyError(m) && m@ == "No pending request with ID: "@ + request_id@),
    {
        match self.pending.remove(request_id) {
            Some(w) => Ok(w),
            None => Err(no_pending_request(request_id)),
        }
    }

    /// Stops a request from waiting, as when its wait ended without a decision.
    pub fn forget(&mut self, request_id: &str)
        requires
            old(self).wf(),
        ensures
            final(self).wf(),
            final(self).pending.view() == old(self).pending.view().remove(request_id@),
    {
        self.pending.remove(request_id);
    }

    /// The number of waiting requests.
    pub fn pending_count(&self) -> (n: usize)
        requires
            self.wf(),
        ensures
            n == self.pending.view().len(),
    {
        self.pending.len()
    }

    /// Cancels a waiting request: its waiter is taken, with the denial to
    /// hand it; an error when no request of that id waits.
    pub fn cancel(&mut self, request_id: &str) -> (r: Result<(S, ApprovalResponse), HitlError>)
        requires
            old(self).wf(),
        ensures
            final(self).wf(),
            final(self).pending.view() == old(self).pending.view().remove(request_id@),
            r is Ok <==> old(self).pending.view().contains_key(request_id@),
            r matches Ok((w, resp)) ==> w == old(self).pending.view()[request_id@]
                && (resp matches ApprovalResponse::Denied { reason } && opt_text(reason) == Some("Request cancelled"@)),
            r matches Err(e) ==> (e matches HitlError::StrategyError(m) && m@ == "Request not found"@),
    {
        match self.pending.remove(request_id) {
            Some(w) => Ok((w, cancelled_response())),
            None => Err(request_not_found()),
        }
    }
}

/// A request that waits is answered with what is submitted for it: after
/// `register` of an id that was not waiting, one more request waits; a
/// `submit_response` (or `cancel`) of that id then finds exactly the waiter
/// registered, and the waiting requests are again those of before.
pub proof fn lemma_register_then_answer<S>(pending: Map<Seq<char>, S>, id: Seq<char>, waiter: S)
    requires
        pending.dom().finite(),
        !pending.contains_key(id),
    ensures
        pending.insert(id, waiter).contains_key(id),
        pending.insert(id, waiter)[id] == waiter,
        pending.insert(id, waiter).len() == pending.len() + 1,
        pending.insert(id, waiter).remove(id) == pending,
{
    assert(pending.insert(id, waiter).remove(id) =~= pending);
}

/// The error for a response to a request that is not pending.
pub fn no_pending_request(request_id: &str) -> (e: HitlError)
    ensures
        e matches HitlError::StrategyError(m) && m@ == "No pending request with ID: "@ + request_id@,
{
    proof { reveal_strlit("No pending request with ID: "); }
    HitlError::StrategyError(join2("No pending request with ID: ", request_id))
}

/// The error for cancelling a request that is not pending.
pub fn request_not_found() -> (e: HitlError)
    ensures
        e matches HitlError::StrategyError(m) && m@ == "Request not found"@,
{
    proof { reveal_strlit("Request not found"); }
    HitlError::strategy("Request not found")
}

impl Default for AutoApprove {
    fn default() -> (a: Self) {
        AutoApprove::new()
    }
}

impl Default for ConsoleApproval {
    fn default() -> (c: Self)
        ensures
            !c.auto_approve_low_risk,
    {
        ConsoleApproval::new()
    }
}

} // verus!
