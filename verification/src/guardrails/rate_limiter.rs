//! Rate limiter: a token bucket per user.
//!
//! A bucket holds up to `max` tokens and refills at `max` tokens per window.
//! Token amounts are kept exactly, scaled by the window length in nanoseconds:
//! a bucket holding `t` tokens stores `t * window`.

use vstd::prelude::*;
use vstd::string::*;
use std::time::{Duration, Instant};
use crate::table::Table;
use crate::support::{duration_nanos, join2, nanos_of};
use crate::guardrails::violation::{InputContext, OutputContext, ToolCallContext, Violation, ViolationAction, ViolationSeverity};

verus! {

#[verifier::external_type_specification]
#[verifier::external_body]
pub struct ExInstant(Instant);

/// `Instant::now`: the current reading of the monotonic clock. Nothing is stated of it.
#[verifier::external_body]
fn instant_now() -> Instant {
    Instant::now()
}

/// `Instant::elapsed`: the time since `epoch`. Nothing is stated of the reading.
#[verifier::external_body]
fn instant_elapsed(epoch: &Instant) -> Duration {
    epoch.elapsed()
}

/// A user's bucket.
#[derive(Debug, Clone, Copy, PartialEq, Eq, Structural)]
pub struct TokenBucket {
    /// Tokens held, times the window length in nanoseconds.
    pub scaled_tokens: u128,
    /// Clock reading of the last refill, in nanoseconds.
    pub last_refill: u128,
}

/// The most a bucket holds, scaled.
pub open spec fn capacity(max: nat, window: nat) -> nat {
    max * window
}

/// A bucket for a user seen for the first time: full.
pub open spec fn fresh_bucket(max: nat, window: nat, now: nat) -> TokenBucket {
    TokenBucket { scaled_tokens: capacity(max, window) as u128, last_refill: now as u128 }
}

/// The scaled tokens after refilling up to `now`: `max` tokens per elapsed
/// window, never more than the capacity. A clock reading before the last
/// refill counts as no time passed.
pub open spec fn refilled(b: TokenBucket, max: nat, window: nat, now: nat) -> nat {
    let elapsed: nat = if now >= b.last_refill { (now - b.last_refill) as nat } else { 0 };
    let sum = b.scaled_tokens + elapsed * max;
    if sum >= capacity(max, window) { capacity(max, window) } else { sum as nat }
}

/// Whether a request at `now` is granted. With a zero window the bucket is
/// always full, so a request is granted whenever the limit is at least one.
pub open spec fn grants(b: TokenBucket, max: nat, window: nat, now: nat) -> bool {
    if window == 0 { max >= 1 } else { refilled(b, max, window, now) >= window }
}

/// The bucket after a request at `now`: refilled, less one token when granted.
pub open spec fn after_request(b: TokenBucket, max: nat, window: nat, now: nat) -> TokenBucket {
    let r = refilled(b, max, window, now);
    TokenBucket {
        scaled_tokens: (if window > 0 && r >= window { r - window } else { r as int }) as u128,
        last_refill: now as u128,
    }
}

/// The message for a user over the limit.
pub open spec fn rate_exceeded_message(user: Seq<char>) -> Seq<char> {
    "Rate limit exceeded for user: "@ + user
}

/// The user an input is counted against.
pub open spec fn user_of(id: Option<String>) -> Seq<char> {
    match id {
        Some(s) => s@,
        None => "default"@,
    }
}

/// Limits requests per user with a token bucket.
pub struct RateLimiter {
    /// Maximum requests per window.
    pub max_tokens: usize,
    /// Window length in nanoseconds.
    pub window_nanos: u64,
    /// The clock reading that request times count from.
    pub epoch: Instant,
    /// Per-user buckets.
    pub buckets: Table<TokenBucket>,
}

impl RateLimiter {
    /// The name it is known by, `rate_limiter`.
    pub fn name(&self) -> (n: &str)
        ensures
            n@ == "rate_limiter"@,
    {
        "rate_limiter"
    }
    pub open spec fn wf(&self) -> bool {
        &&& self.buckets.wf()
        &&& forall|u: Seq<char>| #[trigger] self.buckets.view().contains_key(u)
            ==> self.buckets.view()[u].scaled_tokens <= capacity(self.max_tokens as nat, self.window_nanos as nat)
    }

    /// The bucket a user's next request starts from.
    pub open spec fn bucket_of(&self, user: Seq<char>, now: nat) -> TokenBucket {
        if self.buckets.view().contains_key(user) {
            self.buckets.view()[user]
        } else {
            fresh_bucket(self.max_tokens as nat, self.window_nanos as nat, now)
        }
    }

    /// A limiter of `max_requests` per `window`. Windows longer than `u64::MAX`
    /// nanoseconds (about 584 years) are taken as that long.
    pub fn new(max_requests: usize, window: std::time::Duration) -> (r: RateLimiter)
        ensures
            r.wf(),
            r.max_tokens == max_requests,
            r.window_nanos == if nanos_of(window) > u64::MAX { u64::MAX as nat } else { nanos_of(window) },
            r.buckets.view() == Map::<Seq<char>, TokenBucket>::empty(),
    {
        let n = duration_nanos(&window);
        let w: u64 = if n > u64::MAX as u128 { u64::MAX } else { n as u64 };
        Self::with_window_nanos(max_requests, w)
    }

    /// A limiter of `max_requests` per window of `window_nanos` nanoseconds.
    pub fn with_window_nanos(max_requests: usize, window_nanos: u64) -> (r: RateLimiter)
        ensures
            r.wf(),
            r.max_tokens == max_requests,
            r.window_nanos == window_nanos,
            r.buckets.view() == Map::<Seq<char>, TokenBucket>::empty(),
    {
        RateLimiter { max_tokens: max_requests, window_nanos, epoch: instant_now(), buckets: Table::new() }
    }

    /// Counts a request by `user` at clock reading `now` (nanoseconds) and tells whether it is granted.
    pub fn check_rate(&mut self, user_id: &str, now: u128) -> (granted: bool)
        requires
            old(self).wf(),
        ensures
            final(self).wf(),
            final(self).max_tokens == old(self).max_tokens,
            final(self).window_nanos == old(self).window_nanos,
            granted == grants(old(self).bucket_of(user_id@, now as nat), old(self).max_tokens as nat, old(self).window_nanos as nat, now as nat),
            final(self).buckets.view() == old(self).buckets.view().insert(
                user_id@,
                after_request(old(self).bucket_of(user_id@, now as nat), old(self).max_tokens as nat, old(self).window_nanos as nat, now as nat),
            ),
    {
        let max = self.max_tokens as u128;
        let w = self.window_nanos as u128;
        proof {
            assert(max * w <= 0xffff_ffff_ffff_ffffu128 * 0xffff_ffff_ffff_ffffu128) by (nonlinear_arith)
                requires max <= 0xffff_ffff_ffff_ffffu128, w <= 0xffff_ffff_ffff_ffffu128;
        }
        let cap: u128 = max * w;
        let bucket = match self.buckets.get(user_id) {
            Some(b) => *b,
            None => TokenBucket { scaled_tokens: cap, last_refill: now },
        };
        let elapsed: u128 = if now >= bucket.last_refill { now - bucket.last_refill } else { 0 };
        let room: u128 = cap - bucket.scaled_tokens;
        let r: u128 = if elapsed >= w {
            proof {
                assert(elapsed * max >= w * max) by (nonlinear_arith)
                    requires elapsed >= w, max >= 0;
                assert(w * max == max * w) by (nonlinear_arith);
            }
            cap
        } else {
            proof {
                assert(elapsed * max <= w * max) by (nonlinear_arith)
                    requires elapsed <= w, max >= 0;
                assert(w * max == max * w) by (nonlinear_arith);
            }
            let refill = elapsed * max;
            if refill >= room { cap } else { bucket.scaled_tokens + refill }
        };
        let granted = if w == 0 { max >= 1 } else { r >= w };
        let left = if w > 0 && r >= w { r - w } else { r };
        let updated = TokenBucket { scaled_tokens: left, last_refill: now };
        self.buckets.insert(String::from_str(user_id), updated);
        proof {
            assert forall|u: Seq<char>| #[trigger] self.buckets.view().contains_key(u)
                implies self.buckets.view()[u].scaled_tokens <= capacity(self.max_tokens as nat, self.window_nanos as nat) by {
                if u != user_id@ {
                    assert(old(self).buckets.view().contains_key(u));
                }
            }
        }
        granted
    }

    /// What a check of `context` at clock reading `now` gives and leaves: the
    /// user's bucket (the user is `"default"` when the input names none) after
    /// the request, the others untouched, and a blocking, medium-severity
    /// violation exactly when the request is not granted.
    pub open spec fn checked_at(&self, after: RateLimiter, context: InputContext, r: Option<Violation>, now: nat) -> bool {
        let user = user_of(context.user_id);
        let b = self.bucket_of(user, now);
        let max = self.max_tokens as nat;
        let w = self.window_nanos as nat;
        &&& after.max_tokens == self.max_tokens
        &&& after.window_nanos == self.window_nanos
        &&& after.buckets.view() == self.buckets.view().insert(user, after_request(b, max, w, now))
        &&& (r is None <==> grants(b, max, w, now))
        &&& (r matches Some(v) ==> v.guardrail@ == "rate_limiter"@ && v.severity == ViolationSeverity::Medium
            && v.action == ViolationAction::Block && v.message@ == rate_exceeded_message(user) && v.context is None)
    }

    /// Checks a user's input at clock reading `now`.
    pub fn check_input_at(&mut self, context: &InputContext, now: u128) -> (r: Option<Violation>)
        requires
            old(self).wf(),
        ensures
            final(self).wf(),
            old(self).checked_at(*final(self), *context, r, now as nat),
    {
        proof {
            reveal_strlit("default");
            reveal_strlit("rate_limiter");
            reveal_strlit("Rate limit exceeded for user: ");
        }
        let user: &str = match &context.user_id {
            Some(u) => u.as_str(),
            None => "default",
        };
        if !self.check_rate(user, now) {
            let msg = join2("Rate limit exceeded for user: ", user);
            Some(Violation::new("rate_limiter", ViolationSeverity::Medium, msg.as_str(), ViolationAction::Block))
        } else {
            None
        }
    }

    /// Checks a user's input now: the outcome is what `check_input_at` gives
    /// at some reading of the clock.
    pub fn check_input(&mut self, context: &InputContext) -> (r: Option<Violation>)
        requires
            old(self).wf(),
        ensures
            final(self).wf(),
            exists|now: nat| old(self).checked_at(*final(self), *context, r, now),
            final(self).buckets.view().dom() == old(self).buckets.view().dom().insert(user_of(context.user_id)),
            forall|u: Seq<char>| u != user_of(context.user_id) && #[trigger] old(self).buckets.view().contains_key(u)
                ==> final(self).buckets.view()[u] == old(self).buckets.view()[u],
    {
        let elapsed = instant_elapsed(&self.epoch);
        let now = duration_nanos(&elapsed);
        let r = self.check_input_at(context, now);
        assert(self.buckets.view().dom() =~= old(self).buckets.view().dom().insert(user_of(context.user_id)));
        assert(old(self).checked_at(*self, *context, r, now as nat));
        r
    }

    /// Outputs are not limited.
    pub fn check_output(&self, context: &OutputContext) -> (r: Option<Violation>)
        ensures
            r is None,
    {
        None
    }

    /// Tool calls are not limited.
    pub fn check_tool_call(&self, context: &ToolCallContext) -> (r: Option<Violation>)
        ensures
            r is None,
    {
        None
    }
}

/// Granted requests among `k` made at one instant, from a bucket holding `scaled` (scaled) tokens.
pub open spec fn burst(scaled: nat, window: nat, k: nat) -> nat
    decreases k,
{
    if k == 0 {
        0
    } else if window > 0 && scaled >= window {
        1 + burst((scaled - window) as nat, window, (k - 1) as nat)
    } else {
        burst(scaled, window, (k - 1) as nat)
    }
}

/// At any one instant a bucket grants at most `max` requests, however many are made.
pub proof fn lemma_burst_at_most_max(scaled: nat, max: nat, window: nat, k: nat)
    requires
        window > 0,
        scaled <= capacity(max, window),
    ensures
        burst(scaled, window, k) <= max,
    decreases k,
{
    if k > 0 {
        if scaled >= window {
            assert(max >= 1) by (nonlinear_arith)
                requires scaled >= window, window > 0, scaled <= max * window;
            assert((scaled - window) as nat <= capacity((max - 1) as nat, window)) by (nonlinear_arith)
                requires scaled <= max * window, max >= 1, scaled >= window;
            lemma_burst_at_most_max((scaled - window) as nat, (max - 1) as nat, window, (k - 1) as nat);
        } else {
            lemma_burst_at_most_max(scaled, max, window, (k - 1) as nat);
        }
    }
}

/// A full bucket grants `max` requests at one instant.
pub proof fn lemma_full_bucket_grants_max(max: nat, window: nat)
    requires
        window > 0,
    ensures
        burst(capacity(max, window), window, max) == max,
    decreases max,
{
    if max > 0 {
        assert((capacity(max, window) - window) as nat == capacity((max - 1) as nat, window)) by (nonlinear_arith)
            requires max >= 1;
        assert(capacity(max, window) >= window) by (nonlinear_arith)
            requires max >= 1, window > 0;
        lemma_full_bucket_grants_max((max - 1) as nat, window);
    }
}

/// Once a whole window has passed since the last refill, a request is granted
/// (given a limit of at least one).
pub proof fn lemma_refill_after_window(b: TokenBucket, max: nat, window: nat, now: nat)
    requires
        max >= 1,
        b.last_refill <= now,
        now - b.last_refill >= window,
    ensures
        grants(b, max, window, now),
{
    if window > 0 {
        assert(((now - b.last_refill) as nat) * max >= window * max) by (nonlinear_arith)
            requires (now - b.last_refill) as nat >= window, max >= 1;
        assert(window * max >= window) by (nonlinear_arith)
            requires max >= 1, window > 0;
        assert(capacity(max, window) == window * max) by (nonlinear_arith);
    }
}

/// One user's request leaves every other user's bucket as it was.
pub proof fn lemma_users_independent(before: RateLimiter, after: RateLimiter, user: Seq<char>, b: TokenBucket, other: Seq<char>, now: nat)
    requires
        after.buckets.view() == before.buckets.view().insert(user, b),
        after.max_tokens == before.max_tokens,
        after.window_nanos == before.window_nanos,
        other != user,
    ensures
        after.bucket_of(other, now) == before.bucket_of(other, now),
{
}


/// Requests granted, one user's requests made at the clock readings `ts` in
/// turn, starting from bucket `b`.
pub open spec fn granted_in(b: TokenBucket, max: nat, window: nat, ts: Seq<nat>) -> nat
    decreases ts.len(),
{
    if ts.len() == 0 {
        0
    } else {
        (if grants(b, max, window, ts[0]) { 1nat } else { 0nat })
            + granted_in(after_request(b, max, window, ts[0]), max, window, ts.drop_first())
    }
}

/// Whether clock readings never go back and fit the clock's type.
pub open spec fn readings_in_order(ts: Seq<nat>) -> bool {
    &&& forall|i: int, j: int| 0 <= i <= j < ts.len() ==> ts[i] <= ts[j]
    &&& forall|i: int| 0 <= i < ts.len() ==> ts[i] <= u128::MAX
}

/// Over any run of requests from a bucket, each granted request costs a
/// whole token, and no more tokens come in than the bucket held plus `max`
/// per window elapsed: the granted requests, times the window, are at most
/// the bucket's scaled tokens plus `max` times the time from its last refill
/// to the last request.
pub proof fn lemma_granted_within_refill(b: TokenBucket, max: nat, window: nat, ts: Seq<nat>)
    requires
        window > 0,
        max * window <= u128::MAX,
        b.scaled_tokens <= capacity(max, window),
        ts.len() > 0,
        readings_in_order(ts),
        b.last_refill <= ts[0],
    ensures
        granted_in(b, max, window, ts) * window <= b.scaled_tokens + max * (ts.last() - b.last_refill),
    decreases ts.len(),
{
    let t0 = ts[0];
    let r = refilled(b, max, window, t0);
    let elapsed: nat = (t0 - b.last_refill) as nat;
    assert(r <= b.scaled_tokens + elapsed * max);
    assert(r <= capacity(max, window));
    let b2 = after_request(b, max, window, t0);
    let g: nat = if grants(b, max, window, t0) { 1nat } else { 0nat };
    assert(b2.scaled_tokens + g * window == r);
    assert(b2.last_refill == t0);
    let rest = ts.drop_first();
    if rest.len() == 0 {
        assert(granted_in(b2, max, window, rest) == 0);
        assert(ts.last() == t0);
        assert(elapsed * max == max * (ts.last() - b.last_refill)) by (nonlinear_arith)
            requires elapsed == ts.last() - b.last_refill;
    } else {
        assert(readings_in_order(rest)) by {
            assert forall|i: int, j: int| 0 <= i <= j < rest.len() implies rest[i] <= rest[j] by {
                assert(rest[i] == ts[i + 1] && rest[j] == ts[j + 1]);
            }
            assert forall|i: int| 0 <= i < rest.len() implies rest[i] <= u128::MAX by {
                assert(rest[i] == ts[i + 1]);
            }
        }
        assert(rest[0] == ts[1]);
        assert(t0 <= ts[1]);
        lemma_granted_within_refill(b2, max, window, rest);
        assert(rest.last() == ts.last());
        let k = granted_in(b2, max, window, rest);
        let tail: nat = (ts.last() - t0) as nat;
        assert(k * window <= b2.scaled_tokens + max * tail);
        assert((g + k) * window == g * window + k * window) by (nonlinear_arith);
        assert(elapsed * max + max * tail == max * (ts.last() - b.last_refill)) by (nonlinear_arith)
            requires elapsed + tail == ts.last() - b.last_refill;
    }
}

/// The limit over time: a user whose requests come at the clock readings
/// `t1 <= .. <= tk`, the first finding no bucket, gets at most
/// `max + max * (tk - t1) / window` of them granted, and the first granted
/// when `max` is at least one.
pub proof fn lemma_granted_over_time(max: nat, window: nat, ts: Seq<nat>)
    requires
        window > 0,
        max * window <= u128::MAX,
        ts.len() > 0,
        readings_in_order(ts),
    ensures
        granted_in(fresh_bucket(max, window, ts[0]), max, window, ts) <= max + (max * (ts.last() - ts[0])) / (window as int),
        max >= 1 ==> grants(fresh_bucket(max, window, ts[0]), max, window, ts[0]),
{
    let b = fresh_bucket(max, window, ts[0]);
    assert(b.scaled_tokens == max * window);
    assert(b.last_refill == ts[0]);
    lemma_granted_within_refill(b, max, window, ts);
    let k = granted_in(b, max, window, ts);
    let d: int = max * (ts.last() - ts[0]);
    assert(ts[0] <= ts.last());
    assert(d >= 0) by (nonlinear_arith)
        requires d == max * (ts.last() - ts[0]), ts[0] <= ts.last();
    assert(k * window <= max * window + d);
    assert(k <= max + d / (window as int)) by (nonlinear_arith)
        requires k * window <= max * window + d, window > 0, d >= 0;
    if max >= 1 {
        assert(max * window >= window) by (nonlinear_arith)
            requires max >= 1, window > 0;
    }
}

} // verus!
