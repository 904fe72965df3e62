//! Conversations: ordered messages with token estimates and truncation.

use vstd::prelude::*;
use vstd::string::*;
use crate::llm::types::{Message, MessageRole};
use crate::support::{JsonView, json_null, json_view, new_uuid_string, utc_now_millis};

verus! {

/// Estimated tokens of a message: a quarter of its characters plus four for the role.
pub open spec fn message_tokens(m: Message) -> nat {
    m.content@.len() / 4 + 4
}

/// Estimated tokens of a text: a quarter of its characters.
pub open spec fn text_tokens(s: Seq<char>) -> nat {
    s.len() / 4
}

/// Estimated tokens of a sequence of messages.
pub open spec fn total_tokens(ms: Seq<Message>) -> nat
    decreases ms.len(),
{
    if ms.len() == 0 {
        0
    } else {
        total_tokens(ms.drop_last()) + message_tokens(ms.last())
    }
}

/// The first position at or after `i` that holds a system message.
pub open spec fn first_system_from(ms: Seq<Message>, i: int) -> Option<int>
    decreases ms.len() - i,
{
    if i < 0 || i >= ms.len() {
        None
    } else if ms[i].role == MessageRole::System {
        Some(i)
    } else {
        first_system_from(ms, i + 1)
    }
}

/// The position of the first system message.
pub open spec fn first_system(ms: Seq<Message>) -> Option<int> {
    first_system_from(ms, 0)
}

/// Walking back from position `i` with `budget` tokens left, passing over the
/// system message at `sys`, the position where the kept recent messages begin:
/// each message is kept while it fits, and the walk stops at the first that does not.
pub open spec fn keep_start(ms: Seq<Message>, sys: Option<int>, budget: int, i: int) -> int
    decreases i,
{
    if i <= 0 {
        0
    } else if sys == Some(i - 1) {
        keep_start(ms, sys, budget, i - 1)
    } else if message_tokens(ms[i - 1]) <= budget {
        keep_start(ms, sys, budget - message_tokens(ms[i - 1]), i - 1)
    } else {
        i
    }
}

/// The messages before position `k` that are kept: the system message at
/// `sys` and every message from `start` on, in the order they had.
pub open spec fn selected(ms: Seq<Message>, sys: Option<int>, start: int, k: int) -> Seq<Message>
    decreases k,
{
    if k <= 0 {
        Seq::empty()
    } else if sys == Some(k - 1) || k - 1 >= start {
        selected(ms, sys, start, k - 1).push(ms[k - 1])
    } else {
        selected(ms, sys, start, k - 1)
    }
}

/// Tokens left for recent messages once the first system message is counted.
pub open spec fn recent_budget(ms: Seq<Message>, max: int) -> int {
    match first_system(ms) {
        Some(s) => max - message_tokens(ms[s]),
        None => max,
    }
}

/// The conversation cut down to `max` tokens: the first system message, and
/// the most recent other messages that fit, in order.
pub open spec fn truncated(ms: Seq<Message>, max: int) -> Seq<Message> {
    selected(ms, first_system(ms), keep_start(ms, first_system(ms), recent_budget(ms, max), ms.len() as int), ms.len() as int)
}

/// Tokens of the messages in positions `lo..hi`, the one at `sys` left out.
pub open spec fn range_tokens(ms: Seq<Message>, sys: Option<int>, lo: int, hi: int) -> int
    decreases hi - lo,
{
    if hi <= lo {
        0
    } else if sys == Some(hi - 1) {
        range_tokens(ms, sys, lo, hi - 1)
    } else {
        range_tokens(ms, sys, lo, hi - 1) + message_tokens(ms[hi - 1])
    }
}

proof fn lemma_first_system_from(ms: Seq<Message>, i: int)
    requires
        0 <= i <= ms.len(),
    ensures
        first_system_from(ms, i) matches Some(s) ==> i <= s < ms.len() && ms[s].role == MessageRole::System
            && forall|j: int| i <= j < s ==> ms[j].role != MessageRole::System,
        first_system_from(ms, i) is None ==> forall|j: int| i <= j < ms.len() ==> ms[j].role != MessageRole::System,
    decreases ms.len() - i,
{
    if i < ms.len() {
        lemma_first_system_from(ms, i + 1);
    }
}

proof fn lemma_range_nonneg(ms: Seq<Message>, sys: Option<int>, lo: int, hi: int)
    ensures
        range_tokens(ms, sys, lo, hi) >= 0,
    decreases hi - lo,
{
    if hi > lo {
        lemma_range_nonneg(ms, sys, lo, hi - 1);
    }
}

proof fn lemma_keep_start_bounds(ms: Seq<Message>, sys: Option<int>, budget: int, i: int)
    requires
        i >= 0,
    ensures
        0 <= keep_start(ms, sys, budget, i) <= i,
    decreases i,
{
    if i > 0 {
        if sys == Some(i - 1) {
            lemma_keep_start_bounds(ms, sys, budget, i - 1);
        } else if message_tokens(ms[i - 1]) <= budget {
            lemma_keep_start_bounds(ms, sys, budget - message_tokens(ms[i - 1]), i - 1);
        }
    }
}

/// The kept recent messages fit in the budget.
proof fn lemma_keep_start_fits(ms: Seq<Message>, sys: Option<int>, budget: int, i: int)
    requires
        i >= 0,
        budget >= 0,
    ensures
        range_tokens(ms, sys, keep_start(ms, sys, budget, i), i) <= budget,
    decreases i,
{
    if i > 0 {
        let st = keep_start(ms, sys, budget, i);
        if sys == Some(i - 1) {
            lemma_keep_start_fits(ms, sys, budget, i - 1);
            lemma_keep_start_bounds(ms, sys, budget, i - 1);
            assert(range_tokens(ms, sys, st, i) == range_tokens(ms, sys, st, i - 1));
        } else if message_tokens(ms[i - 1]) <= budget {
            lemma_keep_start_fits(ms, sys, budget - message_tokens(ms[i - 1]), i - 1);
            lemma_keep_start_bounds(ms, sys, budget - message_tokens(ms[i - 1]), i - 1);
        }
    }
}

/// When everything fits, the walk keeps everything.
proof fn lemma_keep_start_all(ms: Seq<Message>, sys: Option<int>, budget: int, i: int)
    requires
        i >= 0,
        range_tokens(ms, sys, 0, i) <= budget,
    ensures
        keep_start(ms, sys, budget, i) == 0,
    decreases i,
{
    if i > 0 {
        lemma_range_nonneg(ms, sys, 0, i - 1);
        if sys == Some(i - 1) {
            lemma_keep_start_all(ms, sys, budget, i - 1);
        } else {
            lemma_keep_start_all(ms, sys, budget - message_tokens(ms[i - 1]), i - 1);
        }
    }
}

/// Tokens of the system message at `sys` when it lies before position `k`.
pub open spec fn sys_tokens_before(ms: Seq<Message>, sys: Option<int>, k: int) -> int {
    match sys {
        Some(s) => if s < k { message_tokens(ms[s]) as int } else { 0 },
        None => 0,
    }
}

/// Tokens of the kept messages: the kept recent ones, plus the system message when it lies before `k`.
proof fn lemma_selected_tokens(ms: Seq<Message>, sys: Option<int>, start: int, k: int)
    requires
        0 <= k <= ms.len(),
        sys matches Some(s) ==> s >= 0,
        start >= 0,
    ensures
        total_tokens(selected(ms, sys, start, k)) == range_tokens(ms, sys, start, k) + sys_tokens_before(ms, sys, k),
    decreases k,
{
    if k > 0 {
        lemma_selected_tokens(ms, sys, start, k - 1);
        let prev = selected(ms, sys, start, k - 1);
        if sys == Some(k - 1) {
            lemma_total_push(prev, ms[k - 1]);
            assert(sys_tokens_before(ms, sys, k) == sys_tokens_before(ms, sys, k - 1) + message_tokens(ms[k - 1]));
            assert(selected(ms, sys, start, k) == prev.push(ms[k - 1]));
            if k <= start {
                assert(range_tokens(ms, sys, start, k) == 0);
                assert(range_tokens(ms, sys, start, k - 1) == 0);
            } else {
                assert(range_tokens(ms, sys, start, k) == range_tokens(ms, sys, start, k - 1));
            }
        } else if k - 1 >= start {
            lemma_total_push(prev, ms[k - 1]);
            assert(range_tokens(ms, sys, start, k) == range_tokens(ms, sys, start, k - 1) + message_tokens(ms[k - 1]));
            assert(sys_tokens_before(ms, sys, k) == sys_tokens_before(ms, sys, k - 1));
            assert(selected(ms, sys, start, k) == prev.push(ms[k - 1]));
        } else {
            assert(sys_tokens_before(ms, sys, k) == sys_tokens_before(ms, sys, k - 1));
            assert(selected(ms, sys, start, k) == prev);
            assert(range_tokens(ms, sys, start, k) == 0);
            assert(range_tokens(ms, sys, start, k - 1) == 0);
        }
    }
}

proof fn lemma_total_push(ms: Seq<Message>, m: Message)
    ensures
        total_tokens(ms.push(m)) == total_tokens(ms) + message_tokens(m),
{
    assert(ms.push(m).drop_last() =~= ms);
    assert(ms.push(m).last() == m);
}

/// Keeping every position from the start keeps the whole prefix.
proof fn lemma_selected_all(ms: Seq<Message>, sys: Option<int>, k: int)
    requires
        0 <= k <= ms.len(),
    ensures
        selected(ms, sys, 0, k) == ms.take(k),
    decreases k,
{
    if k > 0 {
        lemma_selected_all(ms, sys, k - 1);
        assert(ms.take(k - 1).push(ms[k - 1]) =~= ms.take(k));
    }
}

/// A kept position's message is in the selection.
proof fn lemma_selected_contains(ms: Seq<Message>, sys: Option<int>, start: int, k: int, p: int)
    requires
        0 <= p < k <= ms.len(),
        sys == Some(p) || p >= start,
    ensures
        selected(ms, sys, start, k).contains(ms[p]),
    decreases k,
{
    let prev = selected(ms, sys, start, k - 1);
    if p == k - 1 {
        assert(prev.push(ms[k - 1])[prev.len() as int] == ms[p]);
    } else {
        lemma_selected_contains(ms, sys, start, k - 1, p);
        if sys == Some(k - 1) || k - 1 >= start {
            let j = choose|j: int| 0 <= j < prev.len() && prev[j] == ms[p];
            assert(prev.push(ms[k - 1])[j] == ms[p]);
        }
    }
}

/// Truncation keeps the estimate within `max` whenever the system message alone fits.
pub proof fn lemma_truncated_fits(ms: Seq<Message>, max: int)
    requires
        first_system(ms) matches Some(s) ==> message_tokens(ms[s]) <= max,
        max >= 0,
    ensures
        total_tokens(truncated(ms, max)) <= max,
{
    let sys = first_system(ms);
    lemma_first_system_from(ms, 0);
    let b = recent_budget(ms, max);
    let n = ms.len() as int;
    let st = keep_start(ms, sys, b, n);
    lemma_keep_start_fits(ms, sys, b, n);
    lemma_keep_start_bounds(ms, sys, b, n);
    lemma_selected_tokens(ms, sys, st, n);
}

/// A conversation that already fits is left as it is.
pub proof fn lemma_truncated_keeps_fitting(ms: Seq<Message>, max: int)
    requires
        total_tokens(ms) <= max,
    ensures
        truncated(ms, max) == ms,
{
    let sys = first_system(ms);
    lemma_first_system_from(ms, 0);
    let n = ms.len() as int;
    lemma_selected_all(ms, sys, n);
    assert(ms.take(n) =~= ms);
    lemma_selected_tokens(ms, sys, 0, n);
    lemma_keep_start_all(ms, sys, recent_budget(ms, max), n);
}

/// The first system message survives truncation.
pub proof fn lemma_truncated_keeps_system(ms: Seq<Message>, max: int)
    requires
        first_system(ms) is Some,
    ensures
        truncated(ms, max).contains(ms[first_system(ms)->0]),
        ms[first_system(ms)->0].role == MessageRole::System,
{
    let sys = first_system(ms);
    lemma_first_system_from(ms, 0);
    let n = ms.len() as int;
    let st = keep_start(ms, sys, recent_budget(ms, max), n);
    lemma_selected_contains(ms, sys, st, n, sys->0);
}

proof fn lemma_keep_start_stops(ms: Seq<Message>, sys: Option<int>, budget: int, i: int)
    requires
        i >= 0,
    ensures
        keep_start(ms, sys, budget, i) > 0 ==> sys != Some(keep_start(ms, sys, budget, i) - 1)
            && range_tokens(ms, sys, keep_start(ms, sys, budget, i), i)
                + message_tokens(ms[keep_start(ms, sys, budget, i) - 1]) > budget,
    decreases i,
{
    if i > 0 {
        let st = keep_start(ms, sys, budget, i);
        if sys == Some(i - 1) {
            lemma_keep_start_stops(ms, sys, budget, i - 1);
            lemma_keep_start_bounds(ms, sys, budget, i - 1);
            assert(range_tokens(ms, sys, st, i) == range_tokens(ms, sys, st, i - 1));
        } else if message_tokens(ms[i - 1]) <= budget {
            let t = message_tokens(ms[i - 1]);
            lemma_keep_start_stops(ms, sys, budget - t, i - 1);
            lemma_keep_start_bounds(ms, sys, budget - t, i - 1);
            assert(range_tokens(ms, sys, st, i) == range_tokens(ms, sys, st, i - 1) + t);
        }
    }
}

/// Truncation keeps the longest run of recent messages that fits: the result
/// is the system message and every other message from some position `st` on,
/// in order; those messages fit in what the system message leaves of the
/// budget; and where anything is dropped, the newest dropped message (never
/// the system message) would not have fitted beside them.
pub proof fn lemma_truncated_stops_at_first_misfit(ms: Seq<Message>, max: int)
    ensures
        ({
            let sys = first_system(ms);
            let b = recent_budget(ms, max);
            let st = keep_start(ms, sys, b, ms.len() as int);
            &&& 0 <= st <= ms.len()
            &&& truncated(ms, max) == selected(ms, sys, st, ms.len() as int)
            &&& b >= 0 ==> range_tokens(ms, sys, st, ms.len() as int) <= b
            &&& st > 0 ==> sys != Some(st - 1)
                && range_tokens(ms, sys, st, ms.len() as int) + message_tokens(ms[st - 1]) > b
        }),
{
    let sys = first_system(ms);
    let b = recent_budget(ms, max);
    let n = ms.len() as int;
    lemma_keep_start_stops(ms, sys, b, n);
    lemma_keep_start_bounds(ms, sys, b, n);
    if b >= 0 {
        lemma_keep_start_fits(ms, sys, b, n);
    }
}

/// Truncating twice to the same budget gives what truncating once gives,
/// whenever the system message alone fits.
pub proof fn lemma_truncated_idempotent(ms: Seq<Message>, max: int)
    requires
        first_system(ms) matches Some(s) ==> message_tokens(ms[s]) <= max,
        max >= 0,
    ensures
        truncated(truncated(ms, max), max) == truncated(ms, max),
{
    lemma_truncated_fits(ms, max);
    lemma_truncated_keeps_fitting(truncated(ms, max), max);
}

/// The position of the first system message among `ms`.
pub fn system_position(ms: &[Message]) -> (r: Option<usize>)
    ensures
        r matches Some(i) ==> first_system(ms@) == Some(i as int) && i < ms@.len(),
        r is None ==> first_system(ms@) is None,
{
    proof { lemma_first_system_from(ms@, 0); }
    let mut i: usize = 0;
    let n = ms.len();
    while i < n
        invariant
            n == ms@.len(),
            i <= n,
            first_system(ms@) == first_system_from(ms@, i as int),
        decreases n - i,
    {
        if ms[i].role == MessageRole::System {
            return Some(i);
        }
        i = i + 1;
    }
    None
}

/// Estimated tokens of one message.
pub fn estimate_message_tokens(message: &Message) -> (n: usize)
    ensures
        n == message_tokens(*message),
{
    message.content.as_str().unicode_len() / 4 + 4
}

/// Estimated tokens of a text.
pub fn estimate_tokens(text: &str) -> (n: usize)
    ensures
        n == text_tokens(text@),
{
    text.unicode_len() / 4
}

/// A conversation: an identifier, ordered messages, timestamps and metadata.
#[derive(Debug, Clone)]
pub struct Conversation {
    pub id: String,
    pub messages: Vec<Message>,
    /// Creation time, milliseconds since the Unix epoch.
    pub created_at: i64,
    /// Time of the last change, milliseconds since the Unix epoch.
    pub updated_at: i64,
    pub metadata: serde_json::Value,
}

impl Conversation {
    /// The messages, in order.
    pub open spec fn message_seq(&self) -> Seq<Message> {
        self.messages@
    }

    /// An empty conversation with a fresh random identifier.
    pub fn new() -> (c: Conversation)
        ensures
            c.message_seq() == Seq::<Message>::empty(),
            c.id@.len() == 36,
            c.created_at == c.updated_at,
            json_view(c.metadata) == JsonView::Null,
    {
        Self::with_id_string(new_uuid_string())
    }

    fn with_id_string(id: String) -> (c: Conversation)
        ensures
            c.message_seq() == Seq::<Message>::empty(),
            c.id == id,
            c.created_at == c.updated_at,
            json_view(c.metadata) == JsonView::Null,
    {
        let now = utc_now_millis();
        Conversation { id, messages: Vec::new(), created_at: now, updated_at: now, metadata: json_null() }
    }

    /// An empty conversation with the given identifier.
    pub fn with_id(id: &str) -> (c: Conversation)
        ensures
            c.message_seq() == Seq::<Message>::empty(),
            c.id@ == id@,
            c.created_at == c.updated_at,
            json_view(c.metadata) == JsonView::Null,
    {
        Self::with_id_string(String::from_str(id))
    }

    pub fn builder() -> (b: ConversationBuilder)
        ensures
            b.conversation.message_seq() == Seq::<Message>::empty(),
            b.conversation.id@.len() == 36,
    {
        ConversationBuilder::new()
    }

    pub fn add_message(&mut self, message: Message)
        ensures
            final(self).message_seq() == old(self).message_seq().push(message),
            final(self).id == old(self).id,
            final(self).created_at == old(self).created_at,
    {
        self.messages.push(message);
        self.updated_at = utc_now_millis();
    }

    pub fn add_system(&mut self, content: &str)
        ensures
            final(self).message_seq().len() == old(self).message_seq().len() + 1,
            final(self).message_seq().drop_last() == old(self).message_seq(),
            final(self).message_seq().last().role == MessageRole::System,
            final(self).message_seq().last().content@ == content@,
            final(self).id == old(self).id,
    {
        self.add_message(Message::system(content));
    }

    pub fn add_user(&mut self, content: &str)
        ensures
            final(self).message_seq().len() == old(self).message_seq().len() + 1,
            final(self).message_seq().drop_last() == old(self).message_seq(),
            final(self).message_seq().last().role == MessageRole::User,
            final(self).message_seq().last().content@ == content@,
            final(self).id == old(self).id,
    {
        self.add_message(Message::user(content));
    }

    pub fn add_assistant(&mut self, content: &str)
        ensures
            final(self).message_seq().len() == old(self).message_seq().len() + 1,
            final(self).message_seq().drop_last() == old(self).message_seq(),
            final(self).message_seq().last().role == MessageRole::Assistant,
            final(self).message_seq().last().content@ == content@,
            final(self).id == old(self).id,
    {
        self.add_message(Message::assistant(content));
    }

    pub fn messages(&self) -> (ms: &[Message])
        ensures
            ms@ == self.message_seq(),
    {
        self.messages.as_slice()
    }

    /// The messages, for changing in place; the change counts as an update.
    pub fn messages_mut(&mut self) -> (r: &mut Vec<Message>)
        ensures
            *r == old(self).messages,
            final(self).messages == *final(r),
            final(self).id == old(self).id,
            final(self).created_at == old(self).created_at,
            final(self).metadata == old(self).metadata,
    {
        self.updated_at = utc_now_millis();
        &mut self.messages
    }

    pub fn len(&self) -> (n: usize)
        ensures
            n == self.message_seq().len(),
    {
        self.messages.len()
    }

    pub fn is_empty(&self) -> (b: bool)
        ensures
            b == (self.message_seq().len() == 0),
    {
        self.messages.len() == 0
    }

    pub fn last_message(&self) -> (m: Option<&Message>)
        ensures
            m == (if self.message_seq().len() == 0 { None } else { Some(&self.message_seq().last()) }),
    {
        let n = self.messages.len();
        if n == 0 {
            None
        } else {
            Some(&self.messages[n - 1])
        }
    }

    pub fn first_message(&self) -> (m: Option<&Message>)
        ensures
            m == (if self.message_seq().len() == 0 { None } else { Some(&self.message_seq()[0]) }),
    {
        if self.messages.len() == 0 {
            None
        } else {
            Some(&self.messages[0])
        }
    }

    fn system_index(&self) -> (r: Option<usize>)
        ensures
            r matches Some(i) ==> first_system(self.message_seq()) == Some(i as int) && i < self.message_seq().len(),
            r is None ==> first_system(self.message_seq()) is None,
    {
        system_position(self.messages.as_slice())
    }

    /// The first system message, if there is one.
    pub fn system_message(&self) -> (m: Option<&Message>)
        ensures
            m == (match first_system(self.message_seq()) {
                Some(i) => Some(&self.message_seq()[i]),
                None => None,
            }),
    {
        match self.system_index() {
            Some(i) => Some(&self.messages[i]),
            None => None,
        }
    }

    pub fn clear(&mut self)
        ensures
            final(self).message_seq() == Seq::<Message>::empty(),
            final(self).id == old(self).id,
    {
        self.messages.clear();
        self.updated_at = utc_now_millis();
    }

    /// Estimated tokens of all messages.
    pub fn estimate_tokens(&self) -> (n: usize)
        requires
            total_tokens(self.message_seq()) <= usize::MAX,
        ensures
            n == total_tokens(self.message_seq()),
    {
        let mut sum: usize = 0;
        let mut i: usize = 0;
        let n = self.messages.len();
        while i < n
            invariant
                n == self.messages@.len(),
                i <= n,
                sum == total_tokens(self.messages@.take(i as int)),
                total_tokens(self.messages@) <= usize::MAX,
            decreases n - i,
        {
            proof {
                assert(self.messages@.take(i + 1) =~= self.messages@.take(i as int).push(self.messages@[i as int]));
                lemma_total_push(self.messages@.take(i as int), self.messages@[i as int]);
                lemma_total_prefix_monotone(self.messages@, i + 1, n as int);
                assert(self.messages@.take(n as int) =~= self.messages@);
            }
            sum = sum + estimate_message_tokens(&self.messages[i]);
            i = i + 1;
        }
        assert(self.messages@.take(n as int) =~= self.messages@);
        sum
    }

    /// Keeps the first system message and the most recent other messages
    /// that fit in `max_tokens`, in their order.
    pub fn truncate_to_tokens(&mut self, max_tokens: usize)
        ensures
            final(self).message_seq() == truncated(old(self).message_seq(), max_tokens as int),
            final(self).id == old(self).id,
            final(self).created_at == old(self).created_at,
    {
        let ghost ms = self.messages@;
        let n = self.messages.len();
        let sys = self.system_index();
        let ghost sysg: Option<int> = match sys { Some(s) => Some(s as int), None => None };
        let mut current: usize = match sys {
            Some(s) => estimate_message_tokens(&self.messages[s]),
            None => 0,
        };
        let ghost budget0 = recent_budget(ms, max_tokens as int);
        let mut i = n;
        let mut fits = true;
        while i > 0 && fits
            invariant
                n == ms.len(),
                self.messages@ == ms,
                i <= n,
                sysg == first_system(ms),
                sys matches Some(s) ==> sysg == Some(s as int),
                sys is None ==> sysg is None,
                self.id == old(self).id,
                self.created_at == old(self).created_at,
                keep_start(ms, sysg, budget0, n as int) == if fits {
                    keep_start(ms, sysg, max_tokens - current, i as int)
                } else {
                    i as int
                },
            decreases i + if fits { 1int } else { 0int },
        {
            let idx = i - 1;
            let is_sys = match sys {
                Some(s) => s == idx,
                None => false,
            };
            if is_sys {
                i = idx;
            } else {
                let t = estimate_message_tokens(&self.messages[idx]);
                if current <= max_tokens && t <= max_tokens - current {
                    current = current + t;
                    i = idx;
                } else {
                    fits = false;
                }
            }
        }
        let start = i;
        proof {
            if fits {
                assert(i == 0);
            }
        }
        let mut rest: Vec<Message> = Vec::new();
        std::mem::swap(&mut rest, &mut self.messages);
        let mut k: usize = 0;
        while k < n
            invariant
                n == ms.len(),
                k <= n,
                rest@ == ms.skip(k as int),
                self.id == old(self).id,
                self.created_at == old(self).created_at,
                self.messages@ == selected(ms, sysg, start as int, k as int),
                sys matches Some(s) ==> sysg == Some(s as int),
                sys is None ==> sysg is None,
            decreases n - k,
        {
            let m = rest.remove(0);
            let keep = match sys {
                Some(s) => s == k || k >= start,
                None => k >= start,
            };
            if keep {
                self.messages.push(m);
            }
            assert(ms.skip(k as int).drop_first() =~= ms.skip(k + 1));
            k = k + 1;
        }
        self.updated_at = utc_now_millis();
    }

    /// A summary of the conversation.
    pub fn summary(&self) -> (s: ConversationSummary)
        requires
            total_tokens(self.message_seq()) <= usize::MAX,
        ensures
            s.id@ == self.id@,
            s.message_count == self.message_seq().len(),
            s.estimated_tokens == total_tokens(self.message_seq()),
            s.has_system_message == first_system(self.message_seq()) is Some,
            s.created_at == self.created_at,
            s.updated_at == self.updated_at,
    {
        ConversationSummary {
            id: self.id.clone(),
            message_count: self.messages.len(),
            estimated_tokens: self.estimate_tokens(),
            has_system_message: self.system_message().is_some(),
            created_at: self.created_at,
            updated_at: self.updated_at,
        }
    }
}

proof fn lemma_total_prefix_monotone(ms: Seq<Message>, i: int, j: int)
    requires
        0 <= i <= j <= ms.len(),
    ensures
        total_tokens(ms.take(i)) <= total_tokens(ms.take(j)),
    decreases j - i,
{
    if i < j {
        lemma_total_prefix_monotone(ms, i, j - 1);
        assert(ms.take(j).drop_last() =~= ms.take(j - 1));
    }
}

/// Builds a conversation step by step.
pub struct ConversationBuilder {
    pub conversation: Conversation,
}

impl ConversationBuilder {
    pub fn new() -> (b: ConversationBuilder)
        ensures
            b.conversation.message_seq() == Seq::<Message>::empty(),
            b.conversation.id@.len() == 36,
    {
        ConversationBuilder { conversation: Conversation::new() }
    }

    pub fn id(self, id: &str) -> (b: ConversationBuilder)
        ensures
            b.conversation.id@ == id@,
            b.conversation.message_seq() == self.conversation.message_seq(),
    {
        let mut b = self;
        b.conversation.id = String::from_str(id);
        b
    }

    pub fn system(self, content: &str) -> (b: ConversationBuilder)
        ensures
            b.conversation.message_seq().len() == self.conversation.message_seq().len() + 1,
            b.conversation.message_seq().drop_last() == self.conversation.message_seq(),
            b.conversation.message_seq().last().role == MessageRole::System,
            b.conversation.message_seq().last().content@ == content@,
            b.conversation.id == self.conversation.id,
    {
        let mut b = self;
        b.conversation.add_system(content);
        b
    }

    pub fn user(self, content: &str) -> (b: ConversationBuilder)
        ensures
            b.conversation.message_seq().len() == self.conversation.message_seq().len() + 1,
            b.conversation.message_seq().drop_last() == self.conversation.message_seq(),
            b.conversation.message_seq().last().role == MessageRole::User,
            b.conversation.message_seq().last().content@ == content@,
            b.conversation.id == self.conversation.id,
    {
        let mut b = self;
        b.conversation.add_user(content);
        b
    }

    pub fn assistant(self, content: &str) -> (b: ConversationBuilder)
        ensures
            b.conversation.message_seq().len() == self.conversation.message_seq().len() + 1,
            b.conversation.message_seq().drop_last() == self.conversation.message_seq(),
            b.conversation.message_seq().last().role == MessageRole::Assistant,
            b.conversation.message_seq().last().content@ == content@,
            b.conversation.id == self.conversation.id,
    {
        let mut b = self;
        b.conversation.add_assistant(content);
        b
    }

    pub fn message(self, message: Message) -> (b: ConversationBuilder)
        ensures
            b.conversation.message_seq() == self.conversation.message_seq().push(message),
            b.conversation.id == self.conversation.id,
    {
        let mut b = self;
        b.conversation.add_message(message);
        b
    }

    pub fn messages(self, messages: Vec<Message>) -> (b: ConversationBuilder)
        ensures
            b.conversation.message_seq() == self.conversation.message_seq() + messages@,
            b.conversation.id == self.conversation.id,
    {
        let mut b = self;
        let ghost start = b.conversation.message_seq();
        let mut rest = messages;
        let ghost all = rest@;
        let mut k: usize = 0;
        let n = rest.len();
        while rest.len() > 0
            invariant
                k + rest@.len() == n,
                n == all.len(),
                rest@ == all.skip(k as int),
                b.conversation.message_seq() == start + all.take(k as int),
                b.conversation.id == self.conversation.id,
            decreases rest@.len(),
        {
            let m = rest.remove(0);
            b.conversation.add_message(m);
            assert(all.take(k + 1) =~= all.take(k as int).push(m));
            assert(all.skip(k as int).drop_first() =~= all.skip(k + 1));
            k = k + 1;
        }
        assert(all.take(k as int) =~= all);
        b
    }

    pub fn metadata(self, metadata: serde_json::Value) -> (b: ConversationBuilder)
        ensures
            b.conversation.message_seq() == self.conversation.message_seq(),
            b.conversation.metadata == metadata,
            b.conversation.id == self.conversation.id,
    {
        let mut b = self;
        b.conversation.metadata = metadata;
        b
    }

    pub fn build(self) -> (c: Conversation)
        ensures
            c == self.conversation,
    {
        self.conversation
    }
}

/// A summary of a conversation.
#[derive(Debug, Clone)]
pub struct ConversationSummary {
    pub id: String,
    pub message_count: usize,
    pub estimated_tokens: usize,
    pub has_system_message: bool,
    pub created_at: i64,
    pub updated_at: i64,
}

impl Default for Conversation {
    fn default() -> (c: Self)
        ensures
            c.message_seq() == Seq::<Message>::empty(),
            c.id@.len() == 36,
    {
        Conversation::new()
    }
}

impl Default for ConversationBuilder {
    fn default() -> (b: Self)
        ensures
            b.conversation.message_seq() == Seq::<Message>::empty(),
    {
        ConversationBuilder::new()
    }
}

} // verus!
