//! Values carried through the library whose contents come from outside:
//! clock readings, random identifiers, JSON documents, and text helpers.

use vstd::prelude::*;
use vstd::string::*;
use vstd::utf8::is_ascii_chars;
use chrono::Utc;

verus! {

#[verifier::external_type_specification]
#[verifier::external_body]
pub struct ExJsonValue(serde_json::Value);

/// `Clone` for `serde_json::Value` (derived): the copy equals the value copied.
pub assume_specification[ <serde_json::Value as Clone>::clone ](v: &serde_json::Value) -> (r: serde_json::Value)
    ensures
        r == *v,
;

/// `Clone` for `std::time::Duration`, a `Copy` type: the copy equals the value copied.
pub assume_specification[ <std::time::Duration as Clone>::clone ](d: &std::time::Duration) -> (r: std::time::Duration)
    ensures
        r == *d,
;

/// The shape of a JSON document: what it holds, read as plain values. A
/// number's value is not modelled.
pub enum JsonView {
    Null,
    Bool(bool),
    Number,
    Str(Seq<char>),
    Array(Seq<JsonView>),
    Object(Map<Seq<char>, JsonView>),
}

/// What a `serde_json::Value` document holds.
pub uninterp spec fn json_view(v: serde_json::Value) -> JsonView;

/// The object that a sequence of entries collects into: each key with the
/// value of its last entry.
pub open spec fn entries_view(entries: Seq<(String, serde_json::Value)>) -> Map<Seq<char>, JsonView>
    decreases entries.len(),
{
    if entries.len() == 0 {
        Map::empty()
    } else {
        entries_view(entries.drop_last()).insert(entries.last().0@, json_view(entries.last().1))
    }
}

/// `serde_json::Value::Null`: the JSON null document.
#[verifier::external_body]
pub(crate) fn json_null() -> (r: serde_json::Value)
    ensures
        json_view(r) == JsonView::Null,
{
    serde_json::Value::Null
}

/// `serde_json::Value::Bool`: the JSON boolean `b`.
#[verifier::external_body]
pub(crate) fn json_bool(b: bool) -> (r: serde_json::Value)
    ensures
        json_view(r) == JsonView::Bool(b),
{
    serde_json::Value::Bool(b)
}

/// `serde_json::Value::String`: the JSON string holding `s`.
#[verifier::external_body]
pub(crate) fn json_string(s: &str) -> (r: serde_json::Value)
    ensures
        json_view(r) == JsonView::Str(s@),
{
    serde_json::Value::String(s.to_string())
}

/// `serde_json::Value::Array`: the JSON array of `items`, in order.
#[verifier::external_body]
pub(crate) fn json_array(items: Vec<serde_json::Value>) -> (r: serde_json::Value)
    ensures
        json_view(r) == JsonView::Array(items@.map_values(|x: serde_json::Value| json_view(x))),
{
    serde_json::Value::Array(items)
}

/// `serde_json::Value::Object` collected from `entries`: each key with the
/// value of its last entry (`serde_json::Map` is built by inserting the
/// entries in order, and an insert replaces the value of a key present).
#[verifier::external_body]
pub(crate) fn json_object(entries: Vec<(String, serde_json::Value)>) -> (r: serde_json::Value)
    ensures
        json_view(r) == JsonView::Object(entries_view(entries@)),
{
    serde_json::Value::Object(entries.into_iter().collect())
}

/// The length of a duration in nanoseconds, as `Duration::as_nanos` gives it.
pub uninterp spec fn nanos_of(d: std::time::Duration) -> nat;

/// `std::time::Duration::from_secs`: a duration of `secs` seconds, that is,
/// `secs` times 10^9 nanoseconds.
#[verifier::external_body]
pub(crate) fn duration_from_secs(secs: u64) -> (d: std::time::Duration)
    ensures
        nanos_of(d) == secs * 1_000_000_000,
{
    std::time::Duration::from_secs(secs)
}

/// `std::time::Duration::as_nanos`: the length of `d` in nanoseconds.
#[verifier::external_body]
pub(crate) fn duration_nanos(d: &std::time::Duration) -> (n: u128)
    ensures
        n == nanos_of(*d),
{
    d.as_nanos()
}

/// `chrono::Utc::now` read with `timestamp_millis`: the current time in
/// milliseconds since the Unix epoch. Nothing is stated of the reading.
#[verifier::external_body]
pub(crate) fn utc_now_millis() -> i64 {
    Utc::now().timestamp_millis()
}

/// `uuid::Uuid::new_v4` rendered with `to_string`: a random identifier in the
/// hyphenated form, 36 ASCII characters (32 hex digits and 4 hyphens).
#[verifier::external_body]
pub(crate) fn new_uuid_string() -> (s: String)
    ensures
        s@.len() == 36,
        is_ascii_chars(s@),
{
    uuid::Uuid::new_v4().to_string()
}

/// What `str::to_lowercase` gives for a text.
pub uninterp spec fn lowercase_of(s: Seq<char>) -> Seq<char>;

/// `str::to_lowercase`: the text with every character mapped to its lowercase form.
#[verifier::external_body]
pub(crate) fn to_lowercase(s: &str) -> (r: String)
    ensures
        r@ == lowercase_of(s@),
{
    s.to_lowercase()
}

/// Whether `char::is_whitespace` holds: the characters with Unicode's
/// `White_Space` property.
pub open spec fn is_white_space(c: char) -> bool {
    ||| '\t' <= c && c <= '\r'
    ||| c == ' '
    ||| c == '\u{85}'
    ||| c == '\u{a0}'
    ||| c == '\u{1680}'
    ||| '\u{2000}' <= c && c <= '\u{200a}'
    ||| c == '\u{2028}'
    ||| c == '\u{2029}'
    ||| c == '\u{202f}'
    ||| c == '\u{205f}'
    ||| c == '\u{3000}'
}

/// A text without its leading whitespace.
pub open spec fn trim_start_of(s: Seq<char>) -> Seq<char>
    decreases s.len(),
{
    if s.len() > 0 && is_white_space(s[0]) { trim_start_of(s.drop_first()) } else { s }
}

/// A text without its trailing whitespace.
pub open spec fn trim_end_of(s: Seq<char>) -> Seq<char>
    decreases s.len(),
{
    if s.len() > 0 && is_white_space(s.last()) { trim_end_of(s.drop_last()) } else { s }
}

/// What `str::trim` gives for a text: the text without leading and trailing whitespace.
pub open spec fn trimmed_of(s: Seq<char>) -> Seq<char> {
    trim_end_of(trim_start_of(s))
}

/// Whether a character is whitespace in Unicode's sense.
pub fn is_white_space_char(c: char) -> (b: bool)
    ensures
        b == is_white_space(c),
{
    ('\t' <= c && c <= '\r') || c == ' ' || c == '\u{85}' || c == '\u{a0}' || c == '\u{1680}'
        || ('\u{2000}' <= c && c <= '\u{200a}') || c == '\u{2028}' || c == '\u{2029}'
        || c == '\u{202f}' || c == '\u{205f}' || c == '\u{3000}'
}

/// The text without leading and trailing whitespace, as `str::trim` gives it.
pub fn trim(s: &str) -> (r: &str)
    ensures
        r@ == trimmed_of(s@),
{
    let ghost t = s@;
    let n = s.unicode_len();
    let mut i: usize = 0;
    assert(t.subrange(0, n as int) =~= t);
    while i < n && is_white_space_char(s.get_char(i))
        invariant
            n == t.len(),
            t == s@,
            i <= n,
            trim_start_of(t) == trim_start_of(t.subrange(i as int, n as int)),
        decreases n - i,
    {
        assert(t.subrange(i as int, n as int).drop_first() =~= t.subrange(i + 1, n as int));
        i = i + 1;
    }
    assert(trim_start_of(t) == t.subrange(i as int, n as int)) by {
        if i == n {
            assert(t.subrange(i as int, n as int).len() == 0);
        } else {
            assert(t.subrange(i as int, n as int)[0] == t[i as int]);
        }
    }
    let mut j: usize = n;
    while j > i && is_white_space_char(s.get_char(j - 1))
        invariant
            n == t.len(),
            t == s@,
            i <= j <= n,
            trim_end_of(t.subrange(i as int, n as int)) == trim_end_of(t.subrange(i as int, j as int)),
        decreases j - i,
    {
        assert(t.subrange(i as int, j as int).drop_last() =~= t.subrange(i as int, j - 1));
        assert(t.subrange(i as int, j as int).last() == t[j - 1]);
        j = j - 1;
    }
    assert(trim_end_of(t.subrange(i as int, j as int)) == t.subrange(i as int, j as int)) by {
        if j > i {
            assert(t.subrange(i as int, j as int).last() == t[j - 1]);
        }
    }
    s.substring_char(i, j)
}

/// The character for a decimal digit.
pub open spec fn digit_char(d: nat) -> char {
    if d == 0 { '0' }
    else if d == 1 { '1' }
    else if d == 2 { '2' }
    else if d == 3 { '3' }
    else if d == 4 { '4' }
    else if d == 5 { '5' }
    else if d == 6 { '6' }
    else if d == 7 { '7' }
    else if d == 8 { '8' }
    else { '9' }
}

/// The decimal rendering of a natural number, as `{}` prints it.
pub open spec fn decimal(n: nat) -> Seq<char>
    decreases n,
{
    if n < 10 {
        seq![digit_char(n)]
    } else {
        decimal(n / 10) + seq![digit_char(n % 10)]
    }
}

fn digit_str(d: u64) -> (s: &'static str)
    requires
        d < 10,
    ensures
        s@ == seq![digit_char(d as nat)],
{
    if d == 0 { proof { reveal_strlit("0"); } "0" }
    else if d == 1 { proof { reveal_strlit("1"); } "1" }
    else if d == 2 { proof { reveal_strlit("2"); } "2" }
    else if d == 3 { proof { reveal_strlit("3"); } "3" }
    else if d == 4 { proof { reveal_strlit("4"); } "4" }
    else if d == 5 { proof { reveal_strlit("5"); } "5" }
    else if d == 6 { proof { reveal_strlit("6"); } "6" }
    else if d == 7 { proof { reveal_strlit("7"); } "7" }
    else if d == 8 { proof { reveal_strlit("8"); } "8" }
    else { proof { reveal_strlit("9"); } "9" }
}

/// Renders a number in decimal.
pub fn decimal_string(n: u64) -> (s: String)
    ensures
        s@ == decimal(n as nat),
    decreases n,
{
    if n < 10 {
        String::from_str(digit_str(n))
    } else {
        let mut s = decimal_string(n / 10);
        s.append(digit_str(n % 10));
        s
    }
}

/// Joins two texts.
pub fn join2(a: &str, b: &str) -> (s: String)
    ensures
        s@ == a@ + b@,
{
    String::from_str(a).concat(b)
}

/// Joins three texts.
pub fn join3(a: &str, b: &str, c: &str) -> (s: String)
    ensures
        s@ == a@ + b@ + c@,
{
    String::from_str(a).concat(b).concat(c)
}

/// Whether two texts are equal.
pub fn text_eq(a: &str, b: &str) -> (r: bool)
    ensures
        r == (a@ == b@),
{
    String::from_str(a) == String::from_str(b)
}

} // verus!
