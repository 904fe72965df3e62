//! What a provider decides about each HTTP exchange: how a status code is
//! classed, which failures are worth another attempt, and how the
//! `retry-after` header is read.
//!
//! Sending, waiting between attempts and reading bodies happen outside the
//! library; these functions take what came back as plain values.

use vstd::prelude::*;
use vstd::string::*;
use crate::llm::error::LLMError;
use crate::llm::types::{Message, MessageRole};
use crate::support::{decimal, decimal_string, digit_char};

verus! {

/// Whether a character is an ASCII decimal digit.
pub open spec fn is_digit(c: char) -> bool {
    '0' <= c && c <= '9'
}

/// The value of a digit character.
pub open spec fn digit_value(c: char) -> nat {
    (c as nat - '0' as nat) as nat
}

/// Whether every character is a decimal digit.
pub open spec fn all_digits(s: Seq<char>) -> bool {
    forall|i: int| 0 <= i < s.len() ==> #[trigger] is_digit(s[i])
}

/// The number that a string of decimal digits denotes.
pub open spec fn digits_value(s: Seq<char>) -> nat
    decreases s.len(),
{
    if s.len() == 0 {
        0
    } else {
        digits_value(s.drop_last()) * 10 + digit_value(s.last())
    }
}

/// The digits of an unsigned number's text: the text without one leading `+`.
pub open spec fn unsigned_digits(s: Seq<char>) -> Seq<char> {
    if s.len() > 0 && s[0] == '+' { s.drop_first() } else { s }
}

/// What parsing a text as a `u64` gives: an optional `+` followed by at least
/// one decimal digit and nothing else, denoting a value that fits.
pub open spec fn parsed_u64(s: Seq<char>) -> Option<u64> {
    let d = unsigned_digits(s);
    if d.len() > 0 && all_digits(d) && digits_value(d) <= u64::MAX {
        Some(digits_value(d) as u64)
    } else {
        None
    }
}

proof fn lemma_digits_prefix_le(s: Seq<char>, k: int)
    requires
        all_digits(s),
        0 <= k <= s.len(),
    ensures
        digits_value(s.subrange(0, k)) <= digits_value(s),
    decreases s.len(),
{
    if k < s.len() {
        assert(all_digits(s.drop_last()));
        lemma_digits_prefix_le(s.drop_last(), k);
        assert(s.drop_last().subrange(0, k) =~= s.subrange(0, k));
    } else {
        assert(s.subrange(0, k) =~= s);
    }
}

/// Parses a text as an unsigned 64-bit number, as `str::parse::<u64>` does.
pub fn parse_u64(s: &str) -> (r: Option<u64>)
    ensures
        r == parsed_u64(s@),
{
    let n = s.unicode_len();
    let ghost d = unsigned_digits(s@);
    let mut start: usize = 0;
    if n > 0 && s.get_char(0) == '+' {
        start = 1;
    }
    assert(d =~= s@.subrange(start as int, n as int));
    if start == n {
        return None;
    }
    let mut i: usize = start;
    let mut acc: u64 = 0;
    while i < n
        invariant
            start <= i <= n,
            n == s@.len(),
            d == s@.subrange(start as int, n as int),
            d == unsigned_digits(s@),
            all_digits(s@.subrange(start as int, i as int)),
            acc as nat == digits_value(s@.subrange(start as int, i as int)),
        decreases n - i,
    {
        let c = s.get_char(i);
        let ghost prefix = s@.subrange(start as int, i as int);
        let ghost next = s@.subrange(start as int, i + 1);
        assert(next.drop_last() =~= prefix);
        assert(d[i - start] == c);
        if !('0' <= c && c <= '9') {
            assert(!is_digit(d[i - start]));
            return None;
        }
        let v: u32 = (c as u32) - ('0' as u32);
        assert(v as nat == digit_value(c));
        let grown = acc.checked_mul(10);
        let stepped = match grown {
            Some(m) => m.checked_add(v as u64),
            None => None,
        };
        match stepped {
            Some(a) => {
                acc = a;
                i = i + 1;
                assert(all_digits(next));
            },
            None => {
                proof {
                    assert(digits_value(next) > u64::MAX);
                    if all_digits(d) {
                        lemma_digits_prefix_le(d, i + 1 - start);
                        assert(d.subrange(0, i + 1 - start) =~= next);
                    }
                }
                return None;
            },
        }
    }
    assert(s@.subrange(start as int, i as int) =~= d);
    Some(acc)
}

/// How a provider treats the status of an HTTP reply.
#[derive(Debug, Clone, Copy, PartialEq, Eq, Structural)]
pub enum StatusClass {
    /// 429: rate limited, worth another attempt.
    TooManyRequests,
    /// 500 to 599: a server error, worth another attempt.
    ServerError,
    /// 400 to 499 but 429: a client error, final.
    ClientError,
    /// Anything else: the body is read as the reply.
    Readable,
}

/// The class of a status code.
pub open spec fn status_class(code: u16) -> StatusClass {
    if code == 429 {
        StatusClass::TooManyRequests
    } else if 500 <= code < 600 {
        StatusClass::ServerError
    } else if 400 <= code < 500 {
        StatusClass::ClientError
    } else {
        StatusClass::Readable
    }
}

/// How the status codes fall into classes: 429 is rate limiting, every
/// code from 500 to 599 is a server error, every other code from 400 to 499 a
/// client error, and the rest (informational, success, redirection and codes
/// outside those ranges) are read as replies.
pub proof fn lemma_status_classes(code: u16)
    ensures
        code == 429 <==> status_class(code) == StatusClass::TooManyRequests,
        500 <= code <= 599 <==> status_class(code) == StatusClass::ServerError,
        (400 <= code <= 499 && code != 429) <==> status_class(code) == StatusClass::ClientError,
        (code < 400 || code > 599) <==> status_class(code) == StatusClass::Readable,
{
}

/// Classes a status code.
pub fn classify_status(code: u16) -> (c: StatusClass)
    ensures
        c == status_class(code),
{
    if code == 429 {
        StatusClass::TooManyRequests
    } else if 500 <= code && code < 600 {
        StatusClass::ServerError
    } else if 400 <= code && code < 500 {
        StatusClass::ClientError
    } else {
        StatusClass::Readable
    }
}

/// A failed attempt, and whether another attempt may follow.
#[derive(Debug)]
pub enum AttemptFailure {
    /// Worth another attempt, after the given seconds where the server named them.
    Transient { err: LLMError, retry_after_secs: Option<u64> },
    /// Final.
    Permanent(LLMError),
}

/// What a request that could not be sent gives: a timeout and any other
/// transport failure are both worth another attempt, the timeout reported as
/// such.
pub fn send_failure(timed_out: bool, e: reqwest::Error) -> (f: AttemptFailure)
    ensures
        timed_out ==> f == (AttemptFailure::Transient { err: LLMError::Timeout, retry_after_secs: None }),
        !timed_out ==> f == (AttemptFailure::Transient { err: LLMError::HttpError(e), retry_after_secs: None }),
{
    if timed_out {
        AttemptFailure::Transient { err: LLMError::Timeout, retry_after_secs: None }
    } else {
        AttemptFailure::Transient { err: LLMError::HttpError(e), retry_after_secs: None }
    }
}

/// What `StatusCode::canonical_reason` gives for a code.
pub uninterp spec fn canonical_reason_of(code: u16) -> Option<Seq<char>>;

/// `reqwest::StatusCode::canonical_reason`: the standard reason phrase of a
/// status code, where it has one.
#[verifier::external_body]
fn canonical_reason(code: u16) -> (r: Option<&'static str>)
    ensures
        (match r {
            Some(t) => canonical_reason_of(code) == Some(t@),
            None => canonical_reason_of(code) is None,
        }),
{
    match reqwest::StatusCode::from_u16(code) {
        Ok(status) => status.canonical_reason(),
        Err(_) => None,
    }
}

/// A status code as it is displayed: the number, a space, and the reason
/// phrase (or a placeholder where the code has none).
pub open spec fn status_text(code: u16, reason: Option<Seq<char>>) -> Seq<char> {
    decimal(code as nat) + " "@ + match reason {
        Some(t) => t,
        None => "<unknown status code>"@,
    }
}

/// Displays a status code, as `StatusCode` does.
pub fn status_display(code: u16) -> (s: String)
    ensures
        s@ == status_text(code, canonical_reason_of(code)),
{
    let mut s = decimal_string(code as u64);
    s.append(" ");
    match canonical_reason(code) {
        Some(t) => s.append(t),
        None => s.append("<unknown status code>"),
    }
    s
}

/// The failure that a status gives before its body is read as a reply, with
/// the reason phrase of the status given: rate limiting (with the seconds that
/// the `retry-after` header names, where it names a number) and server errors
/// are worth another attempt, client errors are final, and any other status
/// gives none.
pub fn status_failure_with(code: u16, reason: Option<&str>, retry_after: Option<&str>, error_text: &str) -> (f: Option<AttemptFailure>)
    ensures
        status_class(code) == StatusClass::TooManyRequests ==> (f matches Some(AttemptFailure::Transient { err: LLMError::RateLimitExceeded(secs), retry_after_secs })
            && secs == retry_after_secs
            && secs == (match retry_after { Some(h) => parsed_u64(h@), None => None })),
        status_class(code) == StatusClass::ServerError ==> (f matches Some(AttemptFailure::Transient { err: LLMError::ApiError(m), retry_after_secs: None })
            && m@ == "Server error: "@ + error_text@),
        status_class(code) == StatusClass::ClientError ==> (f matches Some(AttemptFailure::Permanent(LLMError::ApiError(m)))
            && m@ == "Client error ("@ + status_text(code, match reason { Some(t) => Some(t@), None => None }) + "): "@ + error_text@),
        status_class(code) == StatusClass::Readable ==> f is None,
{
    match classify_status(code) {
        StatusClass::TooManyRequests => {
            let secs = match retry_after {
                Some(h) => parse_u64(h),
                None => None,
            };
            Some(AttemptFailure::Transient { err: LLMError::RateLimitExceeded(secs), retry_after_secs: secs })
        },
        StatusClass::ServerError => {
            let m = String::from_str("Server error: ").concat(error_text);
            Some(AttemptFailure::Transient { err: LLMError::ApiError(m), retry_after_secs: None })
        },
        StatusClass::ClientError => {
            let mut m = String::from_str("Client error (");
            m.append(&decimal_string(code as u64));
            m.append(" ");
            match reason {
                Some(t) => m.append(t),
                None => m.append("<unknown status code>"),
            }
            m.append("): ");
            m.append(error_text);
            Some(AttemptFailure::Permanent(LLMError::ApiError(m)))
        },
        StatusClass::Readable => None,
    }
}

/// The failure that a status gives before its body is read as a reply (see
/// [`status_failure_with`]), with the status's own reason phrase.
pub fn status_failure(code: u16, retry_after: Option<&str>, error_text: &str) -> (f: Option<AttemptFailure>)
    ensures
        status_class(code) == StatusClass::TooManyRequests ==> (f matches Some(AttemptFailure::Transient { err: LLMError::RateLimitExceeded(secs), retry_after_secs })
            && secs == retry_after_secs
            && secs == (match retry_after { Some(h) => parsed_u64(h@), None => None })),
        status_class(code) == StatusClass::ServerError ==> (f matches Some(AttemptFailure::Transient { err: LLMError::ApiError(m), retry_after_secs: None })
            && m@ == "Server error: "@ + error_text@),
        status_class(code) == StatusClass::ClientError ==> (f matches Some(AttemptFailure::Permanent(LLMError::ApiError(m)))
            && m@ == "Client error ("@ + status_text(code, canonical_reason_of(code)) + "): "@ + error_text@),
        status_class(code) == StatusClass::Readable ==> f is None,
{
    let reason = canonical_reason(code);
    status_failure_with(code, reason, retry_after, error_text)
}

/// A reply whose body could not be parsed: final.
pub fn parse_failure(msg: &str) -> (f: AttemptFailure)
    ensures
        f matches AttemptFailure::Permanent(LLMError::ParseError(m)) && m@ == msg@,
{
    AttemptFailure::Permanent(LLMError::parse_error(msg))
}

/// The error that a streaming request gets from a status outside 200 to 299,
/// with the reason phrase of the status given.
pub fn stream_status_error_with(code: u16, reason: Option<&str>, error_text: &str) -> (e: Option<LLMError>)
    ensures
        (200 <= code < 300) ==> e is None,
        !(200 <= code < 300) ==> (e matches Some(LLMError::ApiError(m))
            && m@ == "API error ("@ + status_text(code, match reason { Some(t) => Some(t@), None => None }) + "): "@ + error_text@),
{
    if 200 <= code && code < 300 {
        None
    } else {
        let mut m = String::from_str("API error (");
        m.append(&decimal_string(code as u64));
        m.append(" ");
        match reason {
            Some(t) => m.append(t),
            None => m.append("<unknown status code>"),
        }
        m.append("): ");
        m.append(error_text);
        Some(LLMError::ApiError(m))
    }
}

/// The error that a streaming request gets from a status outside 200 to 299.
pub fn stream_status_error(code: u16, error_text: &str) -> (e: Option<LLMError>)
    ensures
        (200 <= code < 300) ==> e is None,
        !(200 <= code < 300) ==> (e matches Some(LLMError::ApiError(m))
            && m@ == "API error ("@ + status_text(code, canonical_reason_of(code)) + "): "@ + error_text@),
{
    let reason = canonical_reason(code);
    stream_status_error_with(code, reason, error_text)
}

#[verifier::external_type_specification]
#[verifier::external_body]
pub struct ExHttpClient(reqwest::Client);

/// `reqwest::Client::builder().build()`: an HTTP client with default
/// settings, or the error the crate reports where the platform's TLS backend
/// or resolver configuration cannot be loaded. Nothing is stated of either,
/// nor of which comes: that depends on the platform, not on an argument.
#[verifier::external_body]
pub(crate) fn new_client() -> Result<reqwest::Client, reqwest::Error> {
    reqwest::Client::builder().build()
}

/// A message as the chat APIs take it: a role name and the text.
#[derive(Debug, Clone)]
pub struct WireMessage {
    pub role: String,
    pub content: String,
}

/// The name of a role on the wire.
pub open spec fn role_name(r: MessageRole) -> Seq<char> {
    match r {
        MessageRole::System => "system"@,
        MessageRole::User => "user"@,
        MessageRole::Assistant => "assistant"@,
    }
}

/// Whether `w` carries `m` on the wire.
pub open spec fn carries(w: WireMessage, m: Message) -> bool {
    w.role@ == role_name(m.role) && w.content@ == m.content@
}

/// The wire form of a message.
pub fn wire_message(m: &Message) -> (w: WireMessage)
    ensures
        carries(w, *m),
{
    let role = match m.role {
        MessageRole::System => String::from_str("system"),
        MessageRole::User => String::from_str("user"),
        MessageRole::Assistant => String::from_str("assistant"),
    };
    WireMessage { role, content: m.content.clone() }
}

/// The text of an optional text, empty where there is none.
pub open spec fn text_or_empty(t: Option<String>) -> Seq<char> {
    match t {
        Some(s) => s@,
        None => Seq::empty(),
    }
}

/// A copy of an optional text, empty where there is none.
pub fn copy_or_empty(t: &Option<String>) -> (s: String)
    ensures
        s@ == text_or_empty(*t),
{
    match t {
        Some(x) => x.clone(),
        None => String::new(),
    }
}

/// A copy of an optional text.
pub fn copy_opt(t: &Option<String>) -> (r: Option<String>)
    ensures
        crate::comms::message::opt_text(r) == crate::comms::message::opt_text(*t),
{
    match t {
        Some(x) => Some(x.clone()),
        None => None,
    }
}

proof fn lemma_decimal_digits(n: nat)
    ensures
        decimal(n).len() > 0,
        all_digits(decimal(n)),
        digits_value(decimal(n)) == n,
    decreases n,
{
    let d = n % 10;
    assert(is_digit(digit_char(d)) && digit_value(digit_char(d)) == d) by {
        assert(d < 10);
    }
    let s = decimal(n);
    if n >= 10 {
        lemma_decimal_digits(n / 10);
        assert(s.drop_last() =~= decimal(n / 10));
        assert(s.last() == digit_char(d));
        assert(n == (n / 10) * 10 + n % 10) by (nonlinear_arith);
        assert(digits_value(s) == digits_value(decimal(n / 10)) * 10 + d);
    } else {
        assert(s.drop_last() =~= Seq::<char>::empty());
        assert(digits_value(s) == digits_value(s.drop_last()) * 10 + digit_value(s.last()));
    }
}

/// Reading back a number that was written in decimal gives the number: a
/// `retry-after` value written from a `u64` is parsed to that value.
pub proof fn lemma_parse_decimal_round_trip(n: u64)
    ensures
        parsed_u64(decimal(n as nat)) == Some(n),
{
    lemma_decimal_digits(n as nat);
    let s = decimal(n as nat);
    assert(is_digit(s[0]));
    assert(unsigned_digits(s) == s);
}

} // verus!
