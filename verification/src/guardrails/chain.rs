//! The decisions of a guardrail chain: which violations to keep, and when to stop.
//! The chain itself, which awaits each guardrail in turn, hands every result
//! to a `ChainRun`.

use vstd::prelude::*;
use crate::guardrails::violation::{Violation, ViolationAction};
use crate::guardrails::error::GuardrailError;

verus! {

/// Whether a violation blocks.
pub open spec fn blocks(v: Violation) -> bool {
    v.action == ViolationAction::Block
}

/// The violations a chain reports for the guardrails' results in order: every
/// violation found; in fail-fast mode, none after the first one.
pub open spec fn chain_outcome(results: Seq<Option<Violation>>, fail_fast: bool) -> Seq<Violation>
    decreases results.len(),
{
    if results.len() == 0 {
        Seq::empty()
    } else {
        let prev = chain_outcome(results.drop_last(), fail_fast);
        if fail_fast && prev.len() > 0 {
            prev
        } else {
            match results.last() {
                Some(v) => prev.push(v),
                None => prev,
            }
        }
    }
}

/// Whether a chain stops after these results.
pub open spec fn chain_stopped(results: Seq<Option<Violation>>, fail_fast: bool) -> bool {
    fail_fast && chain_outcome(results, fail_fast).len() > 0
}

/// What a pass reports: the first error a guardrail failed with, or else the
/// violations the chain keeps (see [`chain_outcome`]).
pub open spec fn chain_result(results: Seq<Option<Violation>>, failure: Option<GuardrailError>, fail_fast: bool) -> Result<Seq<Violation>, GuardrailError> {
    match failure {
        Some(e) => Err(e),
        None => Ok(chain_outcome(results, fail_fast)),
    }
}

/// The state of one pass of a chain over its guardrails. The pass names the
/// guardrail to call next (the first, then each following one in order, until
/// the chain stops, a guardrail fails or none is left); the caller calls it and
/// hands back its result or its error.
pub struct ChainRun {
    fail_fast: bool,
    violations: Vec<Violation>,
    error: Option<GuardrailError>,
    calls: usize,
    results: Ghost<Seq<Option<Violation>>>,
}

impl ChainRun {
    /// The guardrail results seen so far.
    pub closed spec fn seen(&self) -> Seq<Option<Violation>> {
        self.results@
    }

    pub closed spec fn is_fail_fast(&self) -> bool {
        self.fail_fast
    }

    /// The violations kept so far.
    pub closed spec fn kept(&self) -> Seq<Violation> {
        self.violations@
    }

    /// The error a guardrail failed with, if one did.
    pub closed spec fn failure(&self) -> Option<GuardrailError> {
        self.error
    }

    pub closed spec fn wf(&self) -> bool {
        &&& self.violations@ == chain_outcome(self.results@, self.fail_fast)
        &&& self.calls == self.results@.len()
    }

    pub fn new(fail_fast: bool) -> (r: ChainRun)
        ensures
            r.wf(),
            r.seen() == Seq::<Option<Violation>>::empty(),
            r.is_fail_fast() == fail_fast,
            r.failure() is None,
    {
        ChainRun { fail_fast, violations: Vec::new(), error: None, calls: 0, results: Ghost(Seq::empty()) }
    }

    /// The position of the guardrail to call next among `count` guardrails:
    /// the one after those whose results were handed back, while the chain has
    /// not stopped, no guardrail has failed and one is left. So a pass calls
    /// the guardrails in their order, each at most once.
    pub fn next_guardrail(&self, count: usize) -> (r: Option<usize>)
        requires
            self.wf(),
        ensures
            r == if !chain_stopped(self.seen(), self.is_fail_fast()) && self.failure() is None
                && self.seen().len() < count {
                Some(self.seen().len() as usize)
            } else {
                None
            },
    {
        if self.is_stopped() || self.error.is_some() || self.calls >= count {
            None
        } else {
            Some(self.calls)
        }
    }

    /// Takes the result of the guardrail named last; tells whether the chain stops here.
    pub fn record(&mut self, result: Option<Violation>) -> (stop: bool)
        requires
            old(self).wf(),
            !chain_stopped(old(self).seen(), old(self).is_fail_fast()),
            old(self).seen().len() < usize::MAX,
        ensures
            final(self).wf(),
            final(self).is_fail_fast() == old(self).is_fail_fast(),
            final(self).failure() == old(self).failure(),
            final(self).seen() == old(self).seen().push(result),
            final(self).kept() == chain_outcome(final(self).seen(), final(self).is_fail_fast()),
            stop == chain_stopped(final(self).seen(), final(self).is_fail_fast()),
    {
        let ghost before = self.results@;
        proof {
            self.results = Ghost(self.results@.push(result));
            assert(self.results@.drop_last() =~= before);
        }
        self.calls = self.calls + 1;
        match result {
            Some(v) => {
                self.violations.push(v);
                self.fail_fast
            },
            None => false,
        }
    }

    /// Takes the error of the guardrail named last: the pass ends with it
    /// (the first error is kept).
    pub fn record_error(&mut self, e: GuardrailError)
        requires
            old(self).wf(),
        ensures
            final(self).wf(),
            final(self).is_fail_fast() == old(self).is_fail_fast(),
            final(self).seen() == old(self).seen(),
            final(self).failure() == if old(self).failure() is None { Some(e) } else { old(self).failure() },
    {
        if self.error.is_none() {
            self.error = Some(e);
        }
    }

    /// Whether the chain has stopped.
    pub fn is_stopped(&self) -> (b: bool)
        requires
            self.wf(),
        ensures
            b == chain_stopped(self.seen(), self.is_fail_fast()),
    {
        self.fail_fast && self.violations.len() > 0
    }

    /// The violations the chain reports.
    pub fn finish(self) -> (vs: Vec<Violation>)
        requires
            self.wf(),
        ensures
            vs@ == chain_outcome(self.seen(), self.is_fail_fast()),
    {
        self.violations
    }

    /// What the pass reports: the first error a guardrail failed with, or
    /// else the violations kept.
    pub fn outcome(self) -> (r: Result<Vec<Violation>, GuardrailError>)
        requires
            self.wf(),
        ensures
            match (r, chain_result(self.seen(), self.failure(), self.is_fail_fast())) {
                (Ok(vs), Ok(expected)) => vs@ == expected,
                (Err(e), Err(expected)) => e == expected,
                _ => false,
            },
    {
        match self.error {
            Some(e) => Err(e),
            None => Ok(self.violations),
        }
    }
}

/// Whether any violation blocks.
pub fn has_blocking_violations(violations: &[Violation]) -> (b: bool)
    ensures
        b == exists|i: int| 0 <= i < violations@.len() && blocks(#[trigger] violations@[i]),
{
    let mut i: usize = 0;
    while i < violations.len()
        invariant
            i <= violations@.len(),
            forall|j: int| 0 <= j < i ==> !blocks(#[trigger] violations@[j]),
        decreases violations@.len() - i,
    {
        if violations[i].action == ViolationAction::Block {
            return true;
        }
        i = i + 1;
    }
    false
}

/// In collect-all mode a chain reports every violation found, in order.
pub proof fn lemma_collect_all(results: Seq<Option<Violation>>)
    ensures
        chain_outcome(results, false) == results.filter(|r: Option<Violation>| r is Some).map_values(
            |r: Option<Violation>| r->0,
        ),
    decreases results.len(),
{
    reveal_with_fuel(Seq::<_>::filter, 1);
    if results.len() > 0 {
        lemma_collect_all(results.drop_last());
        let f = results.filter(|r: Option<Violation>| r is Some);
        let g = results.drop_last().filter(|r: Option<Violation>| r is Some);
        assert(f.map_values(|r: Option<Violation>| r->0) =~= if results.last() is Some {
            g.map_values(|r: Option<Violation>| r->0).push(results.last()->0)
        } else {
            g.map_values(|r: Option<Violation>| r->0)
        });
    }
}

/// In fail-fast mode a chain stops at the first violation, whatever its
/// action: it reports that violation alone, or none when no guardrail found one.
pub proof fn lemma_fail_fast_first_violation(results: Seq<Option<Violation>>)
    ensures
        chain_outcome(results, true).len() <= 1,
        chain_outcome(results, true).len() == 0 <==> forall|i: int| 0 <= i < results.len() ==> #[trigger] results[i] is None,
        chain_outcome(results, true).len() == 1 ==> exists|i: int|
            0 <= i < results.len() && results[i] == Some(chain_outcome(results, true)[0])
                && forall|j: int| 0 <= j < i ==> #[trigger] results[j] is None,
    decreases results.len(),
{
    if results.len() > 0 {
        let init = results.drop_last();
        lemma_fail_fast_first_violation(init);
        let prev = chain_outcome(init, true);
        assert forall|i: int| 0 <= i < init.len() implies init[i] == results[i] by {}
        if prev.len() == 1 {
            let i = choose|i: int|
                0 <= i < init.len() && init[i] == Some(prev[0]) && forall|j: int| 0 <= j < i ==> #[trigger] init[j] is None;
            assert(results[i] == Some(chain_outcome(results, true)[0]));
            assert forall|j: int| 0 <= j < i implies #[trigger] results[j] is None by {
                assert(init[j] is None);
            }
            assert(!(forall|k: int| 0 <= k < results.len() ==> #[trigger] results[k] is None)) by {
                assert(results[i] is Some);
            }
        } else {
            if results.last() is Some {
                let i = results.len() - 1;
                assert forall|j: int| 0 <= j < i implies #[trigger] results[j] is None by {
                    assert(init[j] is None);
                }
                assert(results[i] == Some(chain_outcome(results, true)[0]));
                assert(!(forall|k: int| 0 <= k < results.len() ==> #[trigger] results[k] is None)) by {
                    assert(results[i] is Some);
                }
            } else {
                assert forall|k: int| 0 <= k < results.len() implies #[trigger] results[k] is None by {
                    if k < init.len() {
                        assert(init[k] is None);
                    }
                }
            }
        }
    }
}


/// The state of a pass (results handed back, failure) after `k` steps, each
/// guardrail giving `outs[i]` when called: a step calls the guardrail that
/// `next_guardrail` names and hands back its result (`record`) or its error
/// (`record_error`); once nothing is named, steps change nothing.
pub open spec fn pass_state(outs: Seq<Result<Option<Violation>, GuardrailError>>, fail_fast: bool, k: nat)
    -> (Seq<Option<Violation>>, Option<GuardrailError>)
    decreases k,
{
    if k == 0 {
        (Seq::empty(), None)
    } else {
        let (seen, failure) = pass_state(outs, fail_fast, (k - 1) as nat);
        if failure is Some || chain_stopped(seen, fail_fast) || seen.len() >= outs.len() {
            (seen, failure)
        } else {
            match outs[seen.len() as int] {
                Ok(r) => (seen.push(r), None),
                Err(e) => (seen, Some(e)),
            }
        }
    }
}

/// A pass calls the guardrails in their order, each at most once: after `k`
/// steps the results handed back are those of the first guardrails, in order;
/// while the pass goes on, step `k` calls guardrail `k`; and a failure is the
/// error of the guardrail after the last one that answered, the pass ending
/// with it.
pub proof fn lemma_pass_in_order(outs: Seq<Result<Option<Violation>, GuardrailError>>, fail_fast: bool, k: nat)
    ensures
        ({
            let (seen, failure) = pass_state(outs, fail_fast, k);
            &&& seen.len() <= k
            &&& seen.len() <= outs.len()
            &&& forall|i: int| 0 <= i < seen.len() ==> outs[i] == Ok::<Option<Violation>, GuardrailError>(#[trigger] seen[i])
            &&& (failure matches Some(e) ==> seen.len() < outs.len() && outs[seen.len() as int] == Err::<Option<Violation>, GuardrailError>(e))
            &&& (failure is None && !chain_stopped(seen, fail_fast) && seen.len() < outs.len()) ==> seen.len() == k
        }),
    decreases k,
{
    if k > 0 {
        lemma_pass_in_order(outs, fail_fast, (k - 1) as nat);
        let (seen, failure) = pass_state(outs, fail_fast, (k - 1) as nat);
        if !(failure is Some || chain_stopped(seen, fail_fast) || seen.len() >= outs.len()) {
            match outs[seen.len() as int] {
                Ok(r) => {
                    let s2 = seen.push(r);
                    assert forall|i: int| 0 <= i < s2.len() implies outs[i] == Ok::<Option<Violation>, GuardrailError>(#[trigger] s2[i]) by {
                        if i < seen.len() {
                            assert(s2[i] == seen[i]);
                        }
                    }
                },
                Err(e) => {},
            }
        }
    }
}

} // verus!
