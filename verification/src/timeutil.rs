//! Time and identifier values: clock readings, UTC date-times and UUIDs.
//!
//! Identifiers are carried as the 128-bit value of a UUID, and date-times as
//! seconds and nanoseconds since the Unix epoch; the `uuid` and `chrono`
//! crates parse and print them.

use vstd::prelude::*;

verus! {

#[verifier::external_type_specification]
#[verifier::external_body]
pub struct ExInstant(std::time::Instant);

/// `Clone` of `std::time::Duration`, a `Copy` type: the clone is the same value.
pub assume_specification[ <std::time::Duration as Clone>::clone ](d: &std::time::Duration) -> (r: std::time::Duration)
    ensures
        r == *d,
;

/// `Clone` of `std::time::Instant`, a `Copy` type: the clone is the same value.
pub assume_specification[ <std::time::Instant as Clone>::clone ](i: &std::time::Instant) -> (r: std::time::Instant)
    ensures
        r == *i,
;

/// A point in UTC time: whole seconds since the Unix epoch and the
/// sub-second nanoseconds.
#[derive(Debug, Clone, Copy, PartialEq, Eq, Structural)]
pub struct DateTimeUtc {
    pub secs: i64,
    pub nanos: u32,
}

/// `std::time::Instant::now()`. Nothing is stated of the reading.
#[verifier::external_body]
pub(crate) fn instant_now() -> std::time::Instant {
    std::time::Instant::now()
}

/// Milliseconds since the Unix epoch by the system clock
/// (`SystemTime::now().duration_since(UNIX_EPOCH)`, zero before the epoch).
/// Nothing is stated of the reading.
#[verifier::external_body]
pub(crate) fn unix_millis_now() -> u64 {
    std::time::SystemTime::now().duration_since(std::time::UNIX_EPOCH).unwrap_or_default().as_millis() as u64
}

/// Seconds since the Unix epoch by the system clock. Nothing is stated of the reading.
#[verifier::external_body]
pub(crate) fn unix_secs_now() -> u64 {
    std::time::SystemTime::now().duration_since(std::time::UNIX_EPOCH).unwrap_or_default().as_secs()
}

/// `chrono::Utc::now()`, as seconds and nanoseconds. Nothing is stated of the reading.
#[verifier::external_body]
pub(crate) fn utc_now() -> DateTimeUtc {
    let now = chrono::Utc::now();
    DateTimeUtc { secs: now.timestamp(), nanos: now.timestamp_subsec_nanos() }
}

/// A name for what `chrono::DateTime::parse_from_rfc3339` gives for a text, converted
/// to UTC seconds and nanoseconds, or `None` where chrono rejects the text.
pub uninterp spec fn spec_parse_rfc3339(text: Seq<char>) -> Option<(i64, u32)>;

/// A name for the text of the error `chrono` reports for an RFC 3339 text it rejects.
pub uninterp spec fn spec_rfc3339_error_text(text: Seq<char>) -> Seq<char>;

/// Parses an RFC 3339 date-time with `chrono::DateTime::parse_from_rfc3339` and
/// converts it to UTC, reporting chrono's error text when it is rejected. The
/// grammar is chrono's and is not restated; the result is named by
/// `spec_parse_rfc3339`, the error text by `spec_rfc3339_error_text`.
#[verifier::external_body]
pub(crate) fn parse_rfc3339_text(text: &str) -> (r: Result<DateTimeUtc, String>)
    ensures
        match r {
            Ok(t) => spec_parse_rfc3339(text@) == Some((t.secs, t.nanos)),
            Err(e) => spec_parse_rfc3339(text@) is None && e@ == spec_rfc3339_error_text(text@),
        },
{
    match chrono::DateTime::parse_from_rfc3339(text) {
        Ok(dt) => Ok(DateTimeUtc { secs: dt.timestamp(), nanos: dt.timestamp_subsec_nanos() }),
        Err(e) => Err(e.to_string()),
    }
}

/// Parses an RFC 3339 date-time into UTC; `None` where chrono rejects the text.
pub fn parse_rfc3339(text: &str) -> (r: Option<DateTimeUtc>)
    ensures
        r == (match spec_parse_rfc3339(text@) {
            Some(p) => Some(DateTimeUtc { secs: p.0, nanos: p.1 }),
            None => None,
        }),
{
    match parse_rfc3339_text(text) {
        Ok(t) => Some(t),
        Err(_) => None,
    }
}

/// A name for what `chrono::DateTime::<Utc>::to_rfc3339` prints for a time
/// (the empty text where chrono cannot represent it).
pub uninterp spec fn spec_rfc3339_text(secs: i64, nanos: u32) -> Seq<char>;

/// Prints a UTC time with `chrono::DateTime::to_rfc3339`; the empty string where
/// `DateTime::from_timestamp` rejects the value. The text is named by `spec_rfc3339_text`.
#[verifier::external_body]
pub(crate) fn rfc3339_text(t: DateTimeUtc) -> (r: String)
    ensures
        r@ == spec_rfc3339_text(t.secs, t.nanos),
{
    match chrono::DateTime::from_timestamp(t.secs, t.nanos) {
        Some(dt) => dt.to_rfc3339(),
        None => String::new(),
    }
}

/// A name for the calendar year (`chrono::Datelike::year`) of a UTC time, or
/// `None` where chrono cannot represent the time.
pub uninterp spec fn spec_year_of(secs: i64, nanos: u32) -> Option<i32>;

/// The calendar year of a UTC time, by `chrono::Datelike::year`.
#[verifier::external_body]
pub(crate) fn year_of(t: DateTimeUtc) -> (r: Option<i32>)
    ensures
        r == spec_year_of(t.secs, t.nanos),
{
    match chrono::DateTime::from_timestamp(t.secs, t.nanos) {
        Some(dt) => Some(chrono::Datelike::year(&dt)),
        None => None,
    }
}

/// A name for what `chrono` prints for a UTC time with a format pattern
/// (the empty text where the time cannot be represented).
pub uninterp spec fn spec_datetime_format(secs: i64, nanos: u32, pattern: Seq<char>) -> Seq<char>;

/// Prints a UTC time with `chrono`'s `format` and a pattern of its
/// `strftime` syntax (one of the two patterns the library uses, both of
/// which chrono accepts); the empty string where `DateTime::from_timestamp`
/// rejects the value. The text is named by `spec_datetime_format`.
#[verifier::external_body]
pub(crate) fn format_datetime(t: DateTimeUtc, pattern: &str) -> (r: String)
    requires
        pattern@ == "%Y-%m-%dT%H:%M:%SZ"@ || pattern@ == "%Y-%m-%d %H:%M:%S"@,
    ensures
        r@ == spec_datetime_format(t.secs, t.nanos, pattern@),
{
    match chrono::DateTime::from_timestamp(t.secs, t.nanos) {
        Some(dt) => dt.format(pattern).to_string(),
        None => String::new(),
    }
}

/// A name for what `uuid::Uuid::parse_str` gives for a text, as the UUID's
/// 128-bit value, or `None` where the text is rejected.
pub uninterp spec fn spec_parse_uuid(text: Seq<char>) -> Option<u128>;

/// A name for the text of the error `uuid` reports for a text it rejects.
pub uninterp spec fn spec_uuid_error_text(text: Seq<char>) -> Seq<char>;

/// Parses a UUID with `uuid::Uuid::parse_str`, reporting the crate's error text
/// when it is rejected. The accepted formats are the crate's and are not restated.
#[verifier::external_body]
pub(crate) fn parse_uuid_text(text: &str) -> (r: Result<u128, String>)
    ensures
        match r {
            Ok(u) => spec_parse_uuid(text@) == Some(u),
            Err(e) => spec_parse_uuid(text@) is None && e@ == spec_uuid_error_text(text@),
        },
{
    match uuid::Uuid::parse_str(text) {
        Ok(u) => Ok(u.as_u128()),
        Err(e) => Err(e.to_string()),
    }
}

/// Parses a UUID; `None` where the text is rejected.
pub fn parse_uuid(text: &str) -> (r: Option<u128>)
    ensures
        r == spec_parse_uuid(text@),
{
    match parse_uuid_text(text) {
        Ok(u) => Some(u),
        Err(_) => None,
    }
}

/// A name for the hyphenated lower-case text that `uuid::Uuid`'s `Display` prints.
pub uninterp spec fn spec_uuid_text(id: u128) -> Seq<char>;

/// Prints a UUID with `Display` (`Uuid::from_u128(id).to_string()`).
#[verifier::external_body]
pub(crate) fn uuid_text(id: u128) -> (r: String)
    ensures
        r@ == spec_uuid_text(id),
{
    uuid::Uuid::from_u128(id).to_string()
}

/// A fresh random identifier from `uuid::Uuid::new_v4`. Nothing is stated of the value.
#[verifier::external_body]
pub(crate) fn new_uuid() -> u128 {
    uuid::Uuid::new_v4().as_u128()
}

} // verus!

verus! {

/// A span of time: whole seconds and the nanoseconds below one second
/// (the plain value of a `std::time::Duration`).
#[derive(Debug, Clone, Copy, PartialEq, Eq, Structural)]
pub struct TimeSpan {
    pub secs: u64,
    pub nanos: u32,
}

impl TimeSpan {
    /// The span in nanoseconds.
    pub open spec fn total_nanos(self) -> int {
        self.secs * 1_000_000_000 + self.nanos
    }

    /// The nanoseconds are below one second.
    pub open spec fn wf(self) -> bool {
        self.nanos < 1_000_000_000
    }

    /// The sum of two spans (`Duration + Duration`, which fails on overflow).
    pub fn add(self, other: TimeSpan) -> (r: TimeSpan)
        requires
            self.wf(),
            other.wf(),
            self.total_nanos() + other.total_nanos() < (u64::MAX as int + 1) * 1_000_000_000,
        ensures
            r.wf(),
            r.total_nanos() == self.total_nanos() + other.total_nanos(),
    {
        let n: u64 = self.nanos as u64 + other.nanos as u64;
        if n >= 1_000_000_000 {
            TimeSpan { secs: self.secs + other.secs + 1, nanos: (n - 1_000_000_000) as u32 }
        } else {
            TimeSpan { secs: self.secs + other.secs, nanos: n as u32 }
        }
    }

    /// The span divided by a positive count, rounded down to whole
    /// nanoseconds (`Duration / u32`).
    pub fn div(self, d: u32) -> (r: TimeSpan)
        requires
            self.wf(),
            d > 0,
        ensures
            r.wf(),
            r.total_nanos() == self.total_nanos() / (d as int),
    {
        let total: u128 = self.secs as u128 * 1_000_000_000 + self.nanos as u128;
        let q: u128 = total / (d as u128);
        assert(q <= total) by (nonlinear_arith)
            requires
                q == total / (d as u128),
                d > 0,
        ;
        let secs: u128 = q / 1_000_000_000;
        let nanos: u128 = q % 1_000_000_000;
        assert(secs * 1_000_000_000 + nanos == q) by (nonlinear_arith)
            requires
                secs == q / 1_000_000_000,
                nanos == q % 1_000_000_000,
        ;
        assert(secs <= self.secs) by (nonlinear_arith)
            requires
                secs == q / 1_000_000_000,
                q <= total,
                total == self.secs * 1_000_000_000 + self.nanos,
                self.nanos < 1_000_000_000,
        ;
        TimeSpan { secs: secs as u64, nanos: nanos as u32 }
    }

    /// A span of whole seconds (`Duration::from_secs`).
    pub fn from_secs(secs: u64) -> (t: TimeSpan)
        ensures
            t.secs == secs,
            t.nanos == 0,
    {
        TimeSpan { secs, nanos: 0 }
    }

    /// A span of milliseconds (`Duration::from_millis`).
    pub fn from_millis(millis: u64) -> (t: TimeSpan)
        ensures
            t.secs == millis / 1000,
            t.nanos == (millis % 1000) * 1_000_000,
            t.total_nanos() == millis * 1_000_000,
    {
        TimeSpan { secs: millis / 1000, nanos: ((millis % 1000) * 1_000_000) as u32 }
    }
}

} // verus!
