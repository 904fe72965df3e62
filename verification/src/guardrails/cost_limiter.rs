//! Cost limiter: tracks token usage per session and blocks past the budget.

use vstd::prelude::*;
use vstd::string::*;
use crate::table::Table;
use crate::support::{decimal, decimal_string, join3};
use crate::guardrails::violation::{InputContext, OutputContext, ToolCallContext, Violation, ViolationAction, ViolationSeverity};

verus! {

/// Tokens used by a session: its recorded count, or none.
pub open spec fn usage_in(usage: Map<Seq<char>, usize>, session: Seq<char>) -> nat {
    if usage.contains_key(session) { usage[session] as nat } else { 0 }
}

/// The session an input is charged to.
pub open spec fn session_of(id: Option<String>) -> Seq<char> {
    match id {
        Some(s) => s@,
        None => "default"@,
    }
}

/// The message when the budget is used up.
pub open spec fn budget_exceeded_message(usage: nat, max: nat) -> Seq<char> {
    "Token budget exceeded: "@ + decimal(usage) + " / "@ + decimal(max)
}

/// The outcome of checking an input against the budget.
pub enum BudgetCheck {
    /// The session has used its budget up.
    Exceeded(Violation),
    /// The session is within budget, having used this many tokens.
    Within(usize),
}

/// Tracks token usage per session and blocks when the budget is spent.
pub struct CostLimiter {
    pub max_tokens: usize,
    /// Token usage per session.
    pub usage: Table<usize>,
}

impl CostLimiter {
    /// The name it is known by, `cost_limiter`.
    pub fn name(&self) -> (n: &str)
        ensures
            n@ == "cost_limiter"@,
    {
        "cost_limiter"
    }
    pub open spec fn wf(&self) -> bool {
        self.usage.wf()
    }

    pub fn new(max_tokens: usize) -> (c: CostLimiter)
        ensures
            c.wf(),
            c.max_tokens == max_tokens,
            c.usage.view() == Map::<Seq<char>, usize>::empty(),
    {
        CostLimiter { max_tokens, usage: Table::new() }
    }

    /// Tokens used by a session; zero for one never charged.
    pub fn get_usage(&self, session_id: &str) -> (n: usize)
        requires
            self.wf(),
        ensures
            n == usage_in(self.usage.view(), session_id@),
    {
        match self.usage.get(session_id) {
            Some(v) => *v,
            None => 0,
        }
    }

    /// Tokens a session may still use.
    pub fn get_remaining(&self, session_id: &str) -> (n: usize)
        requires
            self.wf(),
        ensures
            n == if usage_in(self.usage.view(), session_id@) >= self.max_tokens {
                0
            } else {
                self.max_tokens - usage_in(self.usage.view(), session_id@)
            },
    {
        let used = self.get_usage(session_id);
        if used >= self.max_tokens { 0 } else { self.max_tokens - used }
    }

    /// Forgets a session's usage.
    pub fn reset(&mut self, session_id: &str)
        requires
            old(self).wf(),
        ensures
            final(self).wf(),
            final(self).max_tokens == old(self).max_tokens,
            final(self).usage.view() == old(self).usage.view().remove(session_id@),
    {
        self.usage.remove(session_id);
    }

    /// Checks the budget of the input's session (`"default"` when it names none).
    pub fn check_budget(&self, context: &InputContext) -> (r: BudgetCheck)
        requires
            self.wf(),
        ensures
            ({
                let used = usage_in(self.usage.view(), session_of(context.session_id));
                match r {
                    BudgetCheck::Exceeded(v) => used >= self.max_tokens && v.guardrail@ == "cost_limiter"@
                        && v.severity == ViolationSeverity::High && v.action == ViolationAction::Block
                        && v.message@ == budget_exceeded_message(used, self.max_tokens as nat) && v.context is None,
                    BudgetCheck::Within(n) => used < self.max_tokens && n == used,
                }
            }),
    {
        let used = match &context.session_id {
            Some(s) => self.get_usage(s.as_str()),
            None => {
                proof { reveal_strlit("default"); }
                self.get_usage("default")
            },
        };
        if used >= self.max_tokens {
            proof {
                reveal_strlit("Token budget exceeded: ");
                reveal_strlit(" / ");
                reveal_strlit("cost_limiter");
            }
            let msg = join3("Token budget exceeded: ", decimal_string(used as u64).as_str(), " / ").concat(
                decimal_string(self.max_tokens as u64).as_str(),
            );
            BudgetCheck::Exceeded(Violation::new("cost_limiter", ViolationSeverity::High, msg.as_str(), ViolationAction::Block))
        } else {
            BudgetCheck::Within(used)
        }
    }

    /// Charges the tokens an output reports to the `"default"` session.
    pub fn check_output(&mut self, context: &OutputContext) -> (r: Option<Violation>)
        requires
            old(self).wf(),
            context.tokens_used matches Some(t) ==> usage_in(old(self).usage.view(), "default"@) + t <= usize::MAX,
        ensures
            r is None,
            final(self).wf(),
            final(self).max_tokens == old(self).max_tokens,
            final(self).usage.view() == match context.tokens_used {
                Some(t) => old(self).usage.view().insert(
                    "default"@,
                    (usage_in(old(self).usage.view(), "default"@) + t) as usize,
                ),
                None => old(self).usage.view(),
            },
    {
        if let Some(t) = context.tokens_used {
            proof { reveal_strlit("default"); }
            let before = self.get_usage("default");
            self.usage.insert(String::from_str("default"), before + t);
        }
        None
    }

    /// Tool calls are not charged.
    pub fn check_tool_call(&self, context: &ToolCallContext) -> (r: Option<Violation>)
        ensures
            r is None,
    {
        None
    }
}

/// Charging `t` tokens to a session adds exactly `t` to what it has used,
/// and leaves every other session's usage as it was.
pub proof fn lemma_charge_adds_usage(usage: Map<Seq<char>, usize>, session: Seq<char>, t: usize, other: Seq<char>)
    requires
        usage_in(usage, session) + t <= usize::MAX,
        other != session,
    ensures
        usage_in(usage.insert(session, (usage_in(usage, session) + t) as usize), session) == usage_in(usage, session) + t,
        usage_in(usage.insert(session, (usage_in(usage, session) + t) as usize), other) == usage_in(usage, other),
{
}

/// A session's input is blocked exactly when nothing of its budget remains.
pub proof fn lemma_blocked_iff_nothing_remains(used: nat, max: nat)
    ensures
        (used >= max) <==> (if used >= max { 0 } else { max - used }) == 0,
{
}

} // verus!
