//! Spans of time, and what the clocks of the machine say.
use vstd::prelude::*;
use vstd::string::*;

use crate::text::is_digit;

verus! {

/// A span of time: whole seconds and nanoseconds beyond them.
#[derive(Debug, Clone, Copy, PartialEq, Eq, Structural)]
pub struct Span {
    pub secs: u64,
    pub nanos: u32,
}

impl Span {
    /// The span in nanoseconds.
    pub open spec fn total(self) -> nat {
        self.secs as nat * 1_000_000_000 + self.nanos as nat
    }

    pub fn from_secs(secs: u64) -> (r: Self)
        ensures
            r == (Span { secs, nanos: 0 }),
    {
        Span { secs, nanos: 0 }
    }

    pub fn from_millis(ms: u64) -> (r: Self)
        ensures
            r.total() == ms * 1_000_000,
            r.nanos < 1_000_000_000,
    {
        Span { secs: ms / 1000, nanos: ((ms % 1000) * 1_000_000) as u32 }
    }

    /// The span in nanoseconds.
    pub fn as_nanos(&self) -> (r: u128)
        ensures
            r == self.total(),
    {
        self.secs as u128 * 1_000_000_000 + self.nanos as u128
    }
}

/// Two digits of `s` from `i` on write a number between `least` and `most`.
pub open spec fn pair_in(s: Seq<char>, i: int, least: int, most: int) -> bool {
    is_digit(s[i]) && is_digit(s[i + 1]) && least <= (s[i] as u32 - 48) * 10 + (s[i + 1] as u32
        - 48) <= most
}

/// A year: at least four characters, digits but for a sign that may stand in front.
pub open spec fn is_year(s: Seq<char>) -> bool {
    &&& s.len() >= 4
    &&& is_digit(s[0]) || s[0] == '+' || s[0] == '-'
    &&& forall|i: int| 0 < i < s.len() ==> is_digit(#[trigger] s[i])
}

/// A date as `YYYY-MM-DD`.
pub open spec fn is_date(s: Seq<char>) -> bool {
    let n = s.len() as int;
    &&& n >= 10
    &&& is_year(s.take(n - 6))
    &&& s[n - 6] == '-' && pair_in(s, n - 5, 1, 12)
    &&& s[n - 3] == '-' && pair_in(s, n - 2, 1, 31)
}

/// A time of day as `HH-MM-SS`, with `sep` in place of the hyphens.
pub open spec fn is_time(s: Seq<char>, sep: char) -> bool {
    &&& s.len() == 8
    &&& pair_in(s, 0, 0, 23)
    &&& s[2] == sep && pair_in(s, 3, 0, 59)
    &&& s[5] == sep && pair_in(s, 6, 0, 60)
}

/// The decimals of a second: nothing, or a point and digits.
pub open spec fn is_fraction(s: Seq<char>) -> bool {
    s.len() == 0 || (s[0] == '.' && forall|i: int| 0 < i < s.len() ==> is_digit(#[trigger] s[i]))
}

/// The four parts of an instant in UTC: date, `T`, time of day, decimals, and no offset.
pub open spec fn instant_text(date: Seq<char>, time: Seq<char>, fraction: Seq<char>) -> Seq<char> {
    date + "T"@ + time + fraction + "+00:00"@
}

/// An instant in UTC as RFC 3339 writes it.
pub open spec fn is_utc_instant(s: Seq<char>) -> bool {
    exists|date: Seq<char>, time: Seq<char>, fraction: Seq<char>|
        is_date(date) && is_time(time, ':') && is_fraction(fraction) && s
            == #[trigger] instant_text(date, time, fraction)
}

/// `chrono::Utc::now`, formatted as date and as time of day with `DateTime::format`. Which
/// instant it is depends on the clock; of every outcome it holds that the first text is a date
/// and the second a time of day. The call takes the clock to be past 1970.
#[verifier::external_body]
pub(crate) fn utc_now_as(date: &str, time: &str) -> (r: (String, String))
    requires
        date@ == "%Y-%m-%d"@,
        time@ == "%H-%M-%S"@,
    ensures
        is_date(r.0@),
        is_time(r.1@, '-'),
{
    let now = chrono::Utc::now();
    (now.format(date).to_string(), now.format(time).to_string())
}

/// `chrono::Utc::now` and `DateTime::to_rfc3339`. Which instant it is depends on the clock; of
/// every outcome it holds that the text is an instant in UTC.
#[verifier::external_body]
pub(crate) fn utc_now_rfc3339() -> (r: String)
    ensures
        is_utc_instant(r@),
{
    chrono::Utc::now().to_rfc3339()
}

/// `chrono::Local::now`, formatted by `pattern` with `DateTime::format`. Which time it is
/// depends on the clock and the time zone of the machine; of every outcome it holds that the
/// text is a time of day.
#[verifier::external_body]
pub(crate) fn local_now_as(pattern: &str) -> (r: String)
    requires
        pattern@ == "%H:%M:%S"@,
    ensures
        is_time(r@, ':'),
{
    chrono::Local::now().format(pattern).to_string()
}

/// The date and the time of day in UTC, as `YYYY-MM-DD` and `HH-MM-SS`.
pub fn utc_date_and_time() -> (r: (String, String))
    ensures
        is_date(r.0@),
        is_time(r.1@, '-'),
{
    utc_now_as("%Y-%m-%d", "%H-%M-%S")
}

/// A span is its seconds and its nanoseconds.
pub proof fn a_span_counts_nanoseconds(span: Span)
    ensures
        span.total() == span.secs * 1_000_000_000 + span.nanos,
{
}

} // verus!
