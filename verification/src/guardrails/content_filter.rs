//! Content filter: blocks texts that hold a blocked phrase or match a blocked pattern.

use vstd::prelude::*;
use vstd::string::*;
use regex::Regex;
use crate::guardrails::violation::{InputContext, OutputContext, ToolCallContext, Violation, ViolationAction, ViolationSeverity};
use crate::guardrails::error::GuardrailError;
use crate::support::{join2, lowercase_of, to_lowercase};

verus! {

#[verifier::external_type_specification]
#[verifier::external_body]
pub struct ExRegex(Regex);

/// What `regex::Regex::new` gives for a pattern: `None` when the pattern
/// compiles, else the text of the error.
pub uninterp spec fn regex_compile_error(pattern: Seq<char>) -> Option<Seq<char>>;

/// Whether the regular expression `pattern` matches somewhere in `text`, as
/// `regex::Regex::is_match` decides it.
pub uninterp spec fn regex_matches(pattern: Seq<char>, text: Seq<char>) -> bool;

/// `regex::Regex::new`: compiles a pattern, or gives the error's text (its `to_string`).
#[verifier::external_body]
fn regex_new(pattern: &str) -> (r: Result<Regex, String>)
    ensures
        r is Ok <==> regex_compile_error(pattern@) is None,
        r is Err ==> regex_compile_error(pattern@) == Some(r->Err_0@),
{
    Regex::new(pattern).map_err(|e| e.to_string())
}

/// A compiled blocked pattern together with its source text.
pub struct BlockedPattern {
    source: String,
    regex: Regex,
}

/// `regex::Regex::is_match` on the pattern compiled from `p`'s source.
#[verifier::external_body]
fn regex_is_match(p: &BlockedPattern, text: &str) -> (b: bool)
    ensures
        b == regex_matches(p.source@, text@),
{
    p.regex.is_match(text)
}

impl BlockedPattern {
    /// The pattern's source text.
    pub closed spec fn source_view(&self) -> Seq<char> {
        self.source@
    }

    /// Compiles a pattern; the error is the compiler's message.
    pub fn compile(pattern: &str) -> (r: Result<BlockedPattern, String>)
        ensures
            r is Ok <==> regex_compile_error(pattern@) is None,
            r matches Ok(p) ==> p.source_view() == pattern@,
            r matches Err(e) ==> regex_compile_error(pattern@) == Some(e@),
    {
        match regex_new(pattern) {
            Ok(regex) => Ok(BlockedPattern { source: String::from_str(pattern), regex }),
            Err(e) => Err(e),
        }
    }

    /// The pattern's source text (as `Regex::as_str` gives it).
    pub fn as_str(&self) -> (s: &str)
        ensures
            s@ == self.source_view(),
    {
        self.source.as_str()
    }

    pub fn is_match(&self, text: &str) -> (b: bool)
        ensures
            b == regex_matches(self.source_view(), text@),
    {
        regex_is_match(self, text)
    }
}

/// Whether `needle` occurs in `hay` starting at position `i`.
pub open spec fn occurs_at(hay: Seq<char>, needle: Seq<char>, i: int) -> bool {
    0 <= i && i + needle.len() <= hay.len() && hay.subrange(i, i + needle.len()) == needle
}

/// Whether `needle` occurs somewhere in `hay`.
pub open spec fn contains_text(hay: Seq<char>, needle: Seq<char>) -> bool {
    exists|i: int| occurs_at(hay, needle, i)
}

fn chars_of(s: &str) -> (v: Vec<char>)
    ensures
        v@ == s@,
{
    let n = s.unicode_len();
    let mut v: Vec<char> = Vec::new();
    let mut i: usize = 0;
    while i < n
        invariant
            n == s@.len(),
            i <= n,
            v@ == s@.take(i as int),
        decreases n - i,
    {
        v.push(s.get_char(i));
        i = i + 1;
        assert(v@ =~= s@.take(i as int));
    }
    assert(s@.take(n as int) =~= s@);
    v
}

/// Whether `needle` occurs in `hay`, by direct search.
pub fn text_contains(hay: &str, needle: &str) -> (b: bool)
    ensures
        b == contains_text(hay@, needle@),
{
    let h = chars_of(hay);
    let nd = chars_of(needle);
    let hl = h.len();
    let nl = nd.len();
    if nl > hl {
        assert forall|i: int| !occurs_at(hay@, needle@, i) by {}
        return false;
    }
    let last = hl - nl;
    let mut i: usize = 0;
    let mut found = false;
    let mut done = false;
    while !done
        invariant
            h@ == hay@,
            nd@ == needle@,
            hl == h@.len(),
            nl == nd@.len(),
            nl <= hl,
            last == hl - nl,
            i <= last,
            found ==> done && occurs_at(hay@, needle@, i as int),
            !found ==> forall|k: int| 0 <= k < i ==> !occurs_at(hay@, needle@, k),
            done && !found ==> i == last && !occurs_at(hay@, needle@, i as int),
        decreases last - i + if done { 0int } else { 1int },
    {
        let mut j: usize = 0;
        let mut same = true;
        while j < nl && same
            invariant
                h@ == hay@,
                nd@ == needle@,
                hl == h@.len(),
                nl == nd@.len(),
                i + nl <= hl,
                j <= nl,
                same ==> forall|t: int| 0 <= t < j ==> h@[i + t] == nd@[t],
                !same ==> !occurs_at(hay@, needle@, i as int),
            decreases nl - j + if same { 1int } else { 0int },
        {
            if h[i + j] != nd[j] {
                same = false;
                assert(hay@.subrange(i as int, i + nl)[j as int] != needle@[j as int]);
            } else {
                j = j + 1;
            }
        }
        if same {
            assert(hay@.subrange(i as int, i + nl) =~= needle@);
            found = true;
            done = true;
        } else if i == last {
            done = true;
        } else {
            i = i + 1;
        }
    }
    if !found {
        assert forall|k: int| !occurs_at(hay@, needle@, k) by {
            if occurs_at(hay@, needle@, k) {
                assert(k <= i);
            }
        }
    }
    found
}

/// A text as compared: unchanged when case matters, else lowercased.
pub open spec fn folded(s: Seq<char>, case_sensitive: bool) -> Seq<char> {
    if case_sensitive { s } else { lowercase_of(s) }
}

/// The first blocked phrase at or after `i` that occurs in `text`.
pub open spec fn first_phrase_hit(phrases: Seq<String>, text: Seq<char>, case_sensitive: bool, i: int) -> Option<int>
    decreases phrases.len() - i,
{
    if i < 0 || i >= phrases.len() {
        None
    } else if contains_text(folded(text, case_sensitive), folded(phrases[i]@, case_sensitive)) {
        Some(i)
    } else {
        first_phrase_hit(phrases, text, case_sensitive, i + 1)
    }
}

/// The first blocked pattern at or after `i` that matches `text`.
pub open spec fn first_pattern_hit(patterns: Seq<BlockedPattern>, text: Seq<char>, i: int) -> Option<int>
    decreases patterns.len() - i,
{
    if i < 0 || i >= patterns.len() {
        None
    } else if regex_matches(patterns[i].source_view(), text) {
        Some(i)
    } else {
        first_pattern_hit(patterns, text, i + 1)
    }
}

/// The verdict on a text: the reason it is blocked, if it is. Phrases are tried
/// before patterns, each in order; patterns see the text as given.
pub open spec fn filter_verdict(
    phrases: Seq<String>,
    patterns: Seq<BlockedPattern>,
    case_sensitive: bool,
    text: Seq<char>,
) -> Option<Seq<char>> {
    match first_phrase_hit(phrases, text, case_sensitive, 0) {
        Some(i) => Some("Contains blocked phrase: "@ + phrases[i]@),
        None => match first_pattern_hit(patterns, text, 0) {
            Some(i) => Some("Matches blocked pattern: "@ + patterns[i].source_view()),
            None => None,
        },
    }
}

proof fn lemma_first_pattern_hit(patterns: Seq<BlockedPattern>, text: Seq<char>, i: int)
    requires
        0 <= i,
    ensures
        first_pattern_hit(patterns, text, i) matches Some(j) ==> i <= j < patterns.len()
            && regex_matches(patterns[j].source_view(), text)
            && forall|k: int| i <= k < j ==> !regex_matches(#[trigger] patterns[k].source_view(), text),
        first_pattern_hit(patterns, text, i) is None ==> forall|k: int| i <= k < patterns.len()
            ==> !regex_matches(#[trigger] patterns[k].source_view(), text),
    decreases patterns.len() - i,
{
    if i < patterns.len() {
        lemma_first_pattern_hit(patterns, text, i + 1);
    }
}

proof fn lemma_first_phrase_hit(phrases: Seq<String>, text: Seq<char>, case_sensitive: bool, i: int)
    requires
        0 <= i,
    ensures
        first_phrase_hit(phrases, text, case_sensitive, i) matches Some(j) ==> i <= j < phrases.len()
            && contains_text(folded(text, case_sensitive), folded(phrases[j]@, case_sensitive))
            && forall|k: int| i <= k < j ==> !contains_text(folded(text, case_sensitive), folded(#[trigger] phrases[k]@, case_sensitive)),
        first_phrase_hit(phrases, text, case_sensitive, i) is None ==> forall|k: int| i <= k < phrases.len()
            ==> !contains_text(folded(text, case_sensitive), folded(#[trigger] phrases[k]@, case_sensitive)),
    decreases phrases.len() - i,
{
    if i < phrases.len() {
        lemma_first_phrase_hit(phrases, text, case_sensitive, i + 1);
    }
}

/// What the filter blocks. A text is blocked exactly when one of the phrases
/// occurs in it (both compared lowercased unless case matters) or one of the
/// patterns matches the text as given. The reason names the first phrase that
/// occurs; when none does, it names the first pattern that matches the text as
/// given, whatever the case mode.
pub proof fn lemma_filter_blocks_exactly(
    phrases: Seq<String>,
    patterns: Seq<BlockedPattern>,
    case_sensitive: bool,
    text: Seq<char>,
)
    ensures
        filter_verdict(phrases, patterns, case_sensitive, text) is Some <==> (
            (exists|i: int| 0 <= i < phrases.len()
                && contains_text(folded(text, case_sensitive), folded(#[trigger] phrases[i]@, case_sensitive)))
            || (exists|j: int| 0 <= j < patterns.len() && regex_matches(#[trigger] patterns[j].source_view(), text))),
        (forall|i: int| 0 <= i < phrases.len()
            ==> !contains_text(folded(text, case_sensitive), folded(#[trigger] phrases[i]@, case_sensitive)))
            ==> (forall|m: Seq<char>| filter_verdict(phrases, patterns, case_sensitive, text) == Some(m) ==>
                exists|j: int| 0 <= j < patterns.len()
                    && regex_matches(#[trigger] patterns[j].source_view(), text)
                    && (forall|k: int| 0 <= k < j ==> !regex_matches(#[trigger] patterns[k].source_view(), text))
                    && m == "Matches blocked pattern: "@ + patterns[j].source_view()),
        (exists|i: int| 0 <= i < phrases.len()
            && contains_text(folded(text, case_sensitive), folded(#[trigger] phrases[i]@, case_sensitive)))
            ==> (forall|m: Seq<char>| filter_verdict(phrases, patterns, case_sensitive, text) == Some(m) ==>
                exists|i: int| 0 <= i < phrases.len()
                    && contains_text(folded(text, case_sensitive), folded(#[trigger] phrases[i]@, case_sensitive))
                    && (forall|k: int| 0 <= k < i
                        ==> !contains_text(folded(text, case_sensitive), folded(#[trigger] phrases[k]@, case_sensitive)))
                    && m == "Contains blocked phrase: "@ + phrases[i]@),
{
    lemma_first_phrase_hit(phrases, text, case_sensitive, 0);
    lemma_first_pattern_hit(patterns, text, 0);
}

/// Patterns do not depend on the case mode: without phrases, a filter that
/// minds case and one that does not give the same verdict on every text.
pub proof fn lemma_patterns_ignore_case_mode(patterns: Seq<BlockedPattern>, text: Seq<char>)
    ensures
        filter_verdict(Seq::empty(), patterns, true, text) == filter_verdict(Seq::empty(), patterns, false, text),
{
}

/// Blocks messages that hold given phrases or match given patterns.
pub struct ContentFilter {
    pub patterns: Vec<BlockedPattern>,
    pub blocked_phrases: Vec<String>,
    pub case_sensitive: bool,
}

impl ContentFilter {
    /// The name it is known by, `content_filter`.
    pub fn name(&self) -> (n: &str)
        ensures
            n@ == "content_filter"@,
    {
        "content_filter"
    }
    /// A filter for the given phrases, case-insensitive, with no patterns.
    pub fn new(blocked: Vec<String>) -> (f: ContentFilter)
        ensures
            f.blocked_phrases == blocked,
            f.patterns@.len() == 0,
            !f.case_sensitive,
    {
        ContentFilter { patterns: Vec::new(), blocked_phrases: blocked, case_sensitive: false }
    }

    /// Adds a blocked pattern; fails with "Invalid regex: ..." when it does not compile.
    pub fn with_pattern(self, pattern: &str) -> (r: Result<ContentFilter, GuardrailError>)
        ensures
            r is Ok <==> regex_compile_error(pattern@) is None,
            r matches Ok(f) ==> f.blocked_phrases == self.blocked_phrases && f.case_sensitive == self.case_sensitive
                && f.patterns@.len() == self.patterns@.len() + 1
                && f.patterns@.drop_last() == self.patterns@
                && f.patterns@.last().source_view() == pattern@,
            r matches Err(e) ==> e matches GuardrailError::Error(m) && m@ == "Invalid regex: "@ + regex_compile_error(pattern@)->0,
    {
        match BlockedPattern::compile(pattern) {
            Ok(p) => {
                let mut f = self;
                let ghost before = f.patterns@;
                f.patterns.push(p);
                assert(f.patterns@.drop_last() =~= before);
                Ok(f)
            },
            Err(e) => {
                proof { reveal_strlit("Invalid regex: "); }
                Err(GuardrailError::Error(join2("Invalid regex: ", e.as_str())))
            },
        }
    }

    pub fn case_sensitive(self, enabled: bool) -> (f: ContentFilter)
        ensures
            f.case_sensitive == enabled,
            f.blocked_phrases == self.blocked_phrases,
            f.patterns == self.patterns,
    {
        let mut f = self;
        f.case_sensitive = enabled;
        f
    }

    /// The reason a text is blocked, if it is.
    pub fn check_text(&self, text: &str) -> (r: Option<String>)
        ensures
            r matches Some(s) ==> filter_verdict(self.blocked_phrases@, self.patterns@, self.case_sensitive, text@) == Some(s@),
            r is None ==> filter_verdict(self.blocked_phrases@, self.patterns@, self.case_sensitive, text@) is None,
    {
        let text_to_check = if self.case_sensitive { String::from_str(text) } else { to_lowercase(text) };
        let mut i: usize = 0;
        while i < self.blocked_phrases.len()
            invariant
                i <= self.blocked_phrases@.len(),
                text_to_check@ == folded(text@, self.case_sensitive),
                first_phrase_hit(self.blocked_phrases@, text@, self.case_sensitive, 0)
                    == first_phrase_hit(self.blocked_phrases@, text@, self.case_sensitive, i as int),
            decreases self.blocked_phrases@.len() - i,
        {
            let phrase = &self.blocked_phrases[i];
            let phrase_to_check = if self.case_sensitive { phrase.clone() } else { to_lowercase(phrase.as_str()) };
            if text_contains(text_to_check.as_str(), phrase_to_check.as_str()) {
                proof { reveal_strlit("Contains blocked phrase: "); }
                return Some(join2("Contains blocked phrase: ", phrase.as_str()));
            }
            i = i + 1;
        }
        let mut k: usize = 0;
        while k < self.patterns.len()
            invariant
                k <= self.patterns@.len(),
                first_phrase_hit(self.blocked_phrases@, text@, self.case_sensitive, 0) is None,
                first_pattern_hit(self.patterns@, text@, 0) == first_pattern_hit(self.patterns@, text@, k as int),
            decreases self.patterns@.len() - k,
        {
            if self.patterns[k].is_match(text) {
                proof { reveal_strlit("Matches blocked pattern: "); }
                return Some(join2("Matches blocked pattern: ", self.patterns[k].as_str()));
            }
            k = k + 1;
        }
        None
    }

    /// Checks a user message: a blocking, high-severity violation when it is filtered.
    pub fn check_input(&self, context: &InputContext) -> (r: Option<Violation>)
        ensures
            r is Some <==> filter_verdict(self.blocked_phrases@, self.patterns@, self.case_sensitive, context.message@) is Some,
            r matches Some(v) ==> v.guardrail@ == "content_filter"@ && v.severity == ViolationSeverity::High
                && v.action == ViolationAction::Block && v.context is None
                && Some(v.message@) == filter_verdict(self.blocked_phrases@, self.patterns@, self.case_sensitive, context.message@),
    {
        self.violation_for(context.message.as_str())
    }

    /// Checks a model reply the same way as a user message.
    pub fn check_output(&self, context: &OutputContext) -> (r: Option<Violation>)
        ensures
            r is Some <==> filter_verdict(self.blocked_phrases@, self.patterns@, self.case_sensitive, context.response@) is Some,
            r matches Some(v) ==> v.guardrail@ == "content_filter"@ && v.severity == ViolationSeverity::High
                && v.action == ViolationAction::Block && v.context is None
                && Some(v.message@) == filter_verdict(self.blocked_phrases@, self.patterns@, self.case_sensitive, context.response@),
    {
        self.violation_for(context.response.as_str())
    }

    /// Tool calls are not filtered.
    pub fn check_tool_call(&self, context: &ToolCallContext) -> (r: Option<Violation>)
        ensures
            r is None,
    {
        None
    }

    fn violation_for(&self, text: &str) -> (r: Option<Violation>)
        ensures
            r is Some <==> filter_verdict(self.blocked_phrases@, self.patterns@, self.case_sensitive, text@) is Some,
            r matches Some(v) ==> v.guardrail@ == "content_filter"@ && v.severity == ViolationSeverity::High
                && v.action == ViolationAction::Block && v.context is None
                && Some(v.message@) == filter_verdict(self.blocked_phrases@, self.patterns@, self.case_sensitive, text@),
    {
        match self.check_text(text) {
            Some(reason) => Some(Violation::new("content_filter", ViolationSeverity::High, reason.as_str(), ViolationAction::Block)),
            None => None,
        }
    }
}

} // verus!
