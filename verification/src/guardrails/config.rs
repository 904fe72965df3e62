//! Guardrail configuration, and building the configured guardrails.

use vstd::prelude::*;
use crate::guardrails::content_filter::{ContentFilter, regex_compile_error};
use crate::guardrails::cost_limiter::CostLimiter;
use crate::guardrails::error::GuardrailError;
use crate::guardrails::rate_limiter::RateLimiter;
use crate::guardrails::tool_allowlist::ToolAllowlist;
use crate::support::nanos_of;

verus! {

/// Copies a list of strings.
pub fn clone_strings(v: &Vec<String>) -> (r: Vec<String>)
    ensures
        r@ == v@,
{
    let mut r: Vec<String> = Vec::new();
    let mut i: usize = 0;
    while i < v.len()
        invariant
            i <= v@.len(),
            r@ == v@.take(i as int),
        decreases v@.len() - i,
    {
        r.push(v[i].clone());
        i = i + 1;
        assert(r@ =~= v@.take(i as int));
    }
    assert(v@.take(i as int) =~= v@);
    r
}

/// Content filter settings.
#[derive(Debug)]
pub struct ContentFilterConfig {
    pub enabled: bool,
    pub blocked_phrases: Vec<String>,
    pub blocked_patterns: Vec<String>,
    pub case_sensitive: bool,
}

impl Default for ContentFilterConfig {
    fn default() -> (c: Self)
        ensures
            !c.enabled,
            c.blocked_phrases@.len() == 0,
            c.blocked_patterns@.len() == 0,
            !c.case_sensitive,
    {
        ContentFilterConfig { enabled: false, blocked_phrases: Vec::new(), blocked_patterns: Vec::new(), case_sensitive: false }
    }
}

/// Requests allowed per window, unless configured.
pub fn default_max_requests() -> (n: usize)
    ensures
        n == 100,
{
    100
}

/// Window length in seconds, unless configured.
pub fn default_window_seconds() -> (n: u64)
    ensures
        n == 60,
{
    60
}

/// Token budget per session, unless configured.
pub fn default_max_tokens() -> (n: usize)
    ensures
        n == 10000,
{
    10000
}

/// Rate limiter settings.
#[derive(Debug, Clone, Copy, PartialEq, Eq, Structural)]
pub struct RateLimiterConfig {
    pub enabled: bool,
    pub max_requests: usize,
    pub window_seconds: u64,
}

impl Default for RateLimiterConfig {
    fn default() -> (c: Self)
        ensures
            !c.enabled,
            c.max_requests == 100,
            c.window_seconds == 60,
    {
        RateLimiterConfig { enabled: false, max_requests: default_max_requests(), window_seconds: default_window_seconds() }
    }
}

/// Cost limiter settings: the budget. (The warning threshold, a fraction, is
/// applied where floating point is available.)
#[derive(Debug, Clone, Copy, PartialEq, Eq, Structural)]
pub struct CostLimiterConfig {
    pub enabled: bool,
    pub max_tokens: usize,
}

impl Default for CostLimiterConfig {
    fn default() -> (c: Self)
        ensures
            !c.enabled,
            c.max_tokens == 10000,
    {
        CostLimiterConfig { enabled: false, max_tokens: default_max_tokens() }
    }
}

/// Tool allowlist settings.
#[derive(Debug)]
pub struct ToolAllowlistConfig {
    pub enabled: bool,
    pub allowed_tools: Vec<String>,
}

impl Default for ToolAllowlistConfig {
    fn default() -> (c: Self)
        ensures
            !c.enabled,
            c.allowed_tools@.len() == 0,
    {
        ToolAllowlistConfig { enabled: false, allowed_tools: Vec::new() }
    }
}

/// Settings of the whole guardrail system.
#[derive(Debug)]
pub struct GuardrailConfig {
    pub enabled: bool,
    pub content_filter: ContentFilterConfig,
    pub rate_limiter: RateLimiterConfig,
    pub cost_limiter: CostLimiterConfig,
    pub tool_allowlist: ToolAllowlistConfig,
}

impl Default for GuardrailConfig {
    fn default() -> (c: Self)
        ensures
            !c.enabled,
            !c.content_filter.enabled,
            c.content_filter.blocked_phrases@.len() == 0,
            c.content_filter.blocked_patterns@.len() == 0,
            !c.content_filter.case_sensitive,
            c.rate_limiter == (RateLimiterConfig { enabled: false, max_requests: 100, window_seconds: 60 }),
            c.cost_limiter == (CostLimiterConfig { enabled: false, max_tokens: 10000 }),
            !c.tool_allowlist.enabled,
            c.tool_allowlist.allowed_tools@.len() == 0,
    {
        GuardrailConfig {
            enabled: false,
            content_filter: ContentFilterConfig::default(),
            rate_limiter: RateLimiterConfig::default(),
            cost_limiter: CostLimiterConfig::default(),
            tool_allowlist: ToolAllowlistConfig::default(),
        }
    }
}

/// The guardrails a configuration turns on, in chain order.
pub struct GuardrailSet {
    pub content_filter: Option<ContentFilter>,
    pub rate_limiter: Option<RateLimiter>,
    pub cost_limiter: Option<CostLimiter>,
    pub tool_allowlist: Option<ToolAllowlist>,
}

/// How many of the four guardrails are present.
pub open spec fn count_present(a: bool, b: bool, c: bool, d: bool) -> nat {
    (if a { 1nat } else { 0nat }) + (if b { 1nat } else { 0nat }) + (if c { 1nat } else { 0nat }) + (if d { 1nat } else { 0nat })
}

impl GuardrailSet {
    pub open spec fn spec_len(&self) -> nat {
        count_present(self.content_filter is Some, self.rate_limiter is Some, self.cost_limiter is Some, self.tool_allowlist is Some)
    }

    /// The number of guardrails in the set.
    pub fn len(&self) -> (n: usize)
        ensures
            n == self.spec_len(),
    {
        let mut n: usize = 0;
        if self.content_filter.is_some() { n = n + 1; }
        if self.rate_limiter.is_some() { n = n + 1; }
        if self.cost_limiter.is_some() { n = n + 1; }
        if self.tool_allowlist.is_some() { n = n + 1; }
        n
    }

    pub fn is_empty(&self) -> (b: bool)
        ensures
            b == (self.spec_len() == 0),
    {
        self.len() == 0
    }
}

/// The first pattern at or after `i` that does not compile.
pub open spec fn first_bad_pattern(patterns: Seq<String>, i: int) -> Option<int>
    decreases patterns.len() - i,
{
    if i < 0 || i >= patterns.len() {
        None
    } else if regex_compile_error(patterns[i]@) is Some {
        Some(i)
    } else {
        first_bad_pattern(patterns, i + 1)
    }
}

/// A window of `secs` seconds in nanoseconds, capped at `u64::MAX`.
pub open spec fn window_nanos_of(secs: nat) -> nat {
    if secs * 1_000_000_000 > u64::MAX { u64::MAX as nat } else { secs * 1_000_000_000 }
}

/// A configured window of `secs` seconds is that many seconds in
/// nanoseconds (10^9 per second), as long as that fits in a `u64`; longer
/// windows are taken as `u64::MAX` nanoseconds. So a window of `secs`
/// seconds lasts `secs` whole seconds and less than `secs + 1`.
pub proof fn lemma_window_is_seconds_in_nanoseconds(secs: nat)
    ensures
        secs <= 18_446_744_073 ==> window_nanos_of(secs) == secs * 1_000_000_000,
        secs <= 18_446_744_073 ==> window_nanos_of(secs) / 1_000_000_000 == secs,
        secs > 18_446_744_073 ==> window_nanos_of(secs) == u64::MAX,
{
    if secs <= 18_446_744_073 {
        assert(secs * 1_000_000_000 <= 18_446_744_073_000_000_000) by (nonlinear_arith)
            requires secs <= 18_446_744_073;
        assert((secs * 1_000_000_000) / 1_000_000_000 == secs) by (nonlinear_arith);
    } else {
        assert(secs * 1_000_000_000 >= 18_446_744_074_000_000_000) by (nonlinear_arith)
            requires secs >= 18_446_744_074;
    }
}

/// The built window is the one a rate limiter gets from a duration of
/// `secs` seconds: for any duration `d` of `secs * 10^9` nanoseconds (what
/// `Duration::from_secs(secs)` gives), the window is `d` in nanoseconds,
/// capped at `u64::MAX`.
pub proof fn lemma_window_matches_duration(secs: nat, d: std::time::Duration)
    requires
        nanos_of(d) == secs * 1_000_000_000,
    ensures
        window_nanos_of(secs) == if nanos_of(d) > u64::MAX { u64::MAX as nat } else { nanos_of(d) },
{
}

impl GuardrailConfig {
    /// Whether the configuration turns any guardrail on.
    pub open spec fn any_enabled(&self) -> bool {
        self.content_filter.enabled || self.rate_limiter.enabled || self.cost_limiter.enabled || self.tool_allowlist.enabled
    }

    /// Whether building fails: the content filter is on and one of its patterns does not compile.
    pub open spec fn build_fails(&self) -> bool {
        self.enabled && self.content_filter.enabled && first_bad_pattern(self.content_filter.blocked_patterns@, 0) is Some
    }

    fn build_filter(cfg: &ContentFilterConfig) -> (r: Result<ContentFilter, GuardrailError>)
        ensures
            r is Err <==> first_bad_pattern(cfg.blocked_patterns@, 0) is Some,
            r matches Err(e) ==> e matches GuardrailError::Error(m) && m@ == "Invalid regex: "@
                + regex_compile_error(cfg.blocked_patterns@[first_bad_pattern(cfg.blocked_patterns@, 0)->0]@)->0,
            r matches Ok(f) ==> f.blocked_phrases@ == cfg.blocked_phrases@ && f.case_sensitive == cfg.case_sensitive
                && f.patterns@.len() == cfg.blocked_patterns@.len()
                && forall|i: int| 0 <= i < f.patterns@.len() ==> #[trigger] f.patterns@[i].source_view() == cfg.blocked_patterns@[i]@,
    {
        let mut filter = ContentFilter::new(clone_strings(&cfg.blocked_phrases)).case_sensitive(cfg.case_sensitive);
        let mut i: usize = 0;
        while i < cfg.blocked_patterns.len()
            invariant
                i <= cfg.blocked_patterns@.len(),
                filter.blocked_phrases@ == cfg.blocked_phrases@,
                filter.case_sensitive == cfg.case_sensitive,
                filter.patterns@.len() == i,
                forall|j: int| 0 <= j < i ==> #[trigger] filter.patterns@[j].source_view() == cfg.blocked_patterns@[j]@,
                first_bad_pattern(cfg.blocked_patterns@, 0) == first_bad_pattern(cfg.blocked_patterns@, i as int),
            decreases cfg.blocked_patterns@.len() - i,
        {
            let ghost before = filter.patterns@;
            match filter.with_pattern(cfg.blocked_patterns[i].as_str()) {
                Ok(f) => {
                    filter = f;
                    assert forall|j: int| 0 <= j < i + 1 implies #[trigger] filter.patterns@[j].source_view() == cfg.blocked_patterns@[j]@ by {
                        if j < i {
                            assert(filter.patterns@[j] == filter.patterns@.drop_last()[j]);
                        }
                    }
                },
                Err(e) => {
                    return Err(e);
                },
            }
            i = i + 1;
        }
        Ok(filter)
    }

    /// The guardrails that the configuration turns on: none when guardrails are
    /// off or none is turned on; an error when a blocked pattern does not compile.
    pub fn build_chain(&self) -> (r: Result<Option<GuardrailSet>, GuardrailError>)
        ensures
            r is Err <==> self.build_fails(),
            r matches Err(e) ==> e matches GuardrailError::Error(m) && m@ == "Invalid regex: "@
                + regex_compile_error(self.content_filter.blocked_patterns@[first_bad_pattern(self.content_filter.blocked_patterns@, 0)->0]@)->0,
            r matches Ok(o) ==> (o is None <==> (!self.enabled || !self.any_enabled())),
            r matches Ok(Some(set)) ==> {
                &&& set.spec_len() == count_present(
                    self.content_filter.enabled,
                    self.rate_limiter.enabled,
                    self.cost_limiter.enabled,
                    self.tool_allowlist.enabled,
                )
                &&& (set.content_filter is Some <==> self.content_filter.enabled)
                &&& (set.content_filter matches Some(f) ==> f.blocked_phrases@ == self.content_filter.blocked_phrases@
                    && f.case_sensitive == self.content_filter.case_sensitive
                    && f.patterns@.len() == self.content_filter.blocked_patterns@.len()
                    && forall|i: int| 0 <= i < f.patterns@.len()
                        ==> #[trigger] f.patterns@[i].source_view() == self.content_filter.blocked_patterns@[i]@)
                &&& (set.rate_limiter is Some <==> self.rate_limiter.enabled)
                &&& (set.rate_limiter matches Some(l) ==> l.wf() && l.max_tokens == self.rate_limiter.max_requests
                    && l.window_nanos == window_nanos_of(self.rate_limiter.window_seconds as nat)
                    && l.buckets.view() == Map::<Seq<char>, crate::guardrails::rate_limiter::TokenBucket>::empty())
                &&& (set.cost_limiter is Some <==> self.cost_limiter.enabled)
                &&& (set.cost_limiter matches Some(c) ==> c.wf() && c.max_tokens == self.cost_limiter.max_tokens
                    && c.usage.view() == Map::<Seq<char>, usize>::empty())
                &&& (set.tool_allowlist is Some <==> self.tool_allowlist.enabled)
                &&& (set.tool_allowlist matches Some(a) ==> a.wf()
                    && a.allowed() == self.tool_allowlist.allowed_tools@.map_values(|s: String| s@).to_set())
            },
    {
        if !self.enabled {
            return Ok(None);
        }
        let content_filter = if self.content_filter.enabled {
            match Self::build_filter(&self.content_filter) {
                Ok(f) => Some(f),
                Err(e) => return Err(e),
            }
        } else {
            None
        };
        let rate_limiter = if self.rate_limiter.enabled {
            let secs = self.rate_limiter.window_seconds as u128;
            let nanos: u128 = secs * 1_000_000_000;
            let w: u64 = if nanos > u64::MAX as u128 { u64::MAX } else { nanos as u64 };
            Some(RateLimiter::with_window_nanos(self.rate_limiter.max_requests, w))
        } else {
            None
        };
        let cost_limiter = if self.cost_limiter.enabled {
            Some(CostLimiter::new(self.cost_limiter.max_tokens))
        } else {
            None
        };
        let tool_allowlist = if self.tool_allowlist.enabled {
            Some(ToolAllowlist::new(clone_strings(&self.tool_allowlist.allowed_tools)))
        } else {
            None
        };
        let set = GuardrailSet { content_filter, rate_limiter, cost_limiter, tool_allowlist };
        if set.is_empty() {
            Ok(None)
        } else {
            Ok(Some(set))
        }
    }
}

} // verus!
