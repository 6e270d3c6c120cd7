//! Points in time, as `chrono` reads the clock and writes them.

use vstd::prelude::*;
use vstd::string::*;
use crate::api::params::ParamValue;

verus! {

/// A point in time: seconds and nanoseconds since the start of 1970, UTC.
#[derive(Debug, Clone, Copy, PartialEq, Eq, Structural, Hash)]
pub struct Timestamp {
    pub secs: i64,
    pub nanos: u32,
}

/// What `DateTime::to_rfc3339_opts` writes, with whole seconds and `Z` for
/// the offset, for the time that `DateTime::from_timestamp` makes of
/// `secs` and `nanos`; `None` where it makes none.
pub uninterp spec fn rfc3339_secs(secs: i64, nanos: u32) -> Option<Seq<char>>;

/// As [`rfc3339_secs`], with as many digits of the second as are not zero,
/// in groups of three.
pub uninterp spec fn rfc3339_auto(secs: i64, nanos: u32) -> Option<Seq<char>>;

/// The seconds and nanoseconds of the time that `chrono` reads from `text`
/// as a `DateTime<Utc>`; `None` where it reads none.
pub uninterp spec fn parsed_time(text: Seq<char>) -> Option<(i64, u32)>;

/// `Utc::now`, by `DateTime::timestamp` and
/// `DateTime::timestamp_subsec_nanos`. The result is what the clock of the
/// machine says: all that holds of it whatever the clock says is that the
/// nanoseconds are less than a second, for `Utc::now` makes its time from
/// `Duration::subsec_nanos`.
#[verifier::external_body]
fn current_time() -> (r: Timestamp)
    ensures
        r.nanos < 1_000_000_000,
{
    let now = chrono::Utc::now();
    Timestamp { secs: now.timestamp(), nanos: now.timestamp_subsec_nanos() }
}

/// `DateTime::from_timestamp`, then `to_rfc3339_opts` with
/// `SecondsFormat::Secs` and `Z`.
#[verifier::external_body]
fn format_secs(secs: i64, nanos: u32) -> (r: Option<String>)
    ensures
        r is Some <==> rfc3339_secs(secs, nanos) is Some,
        r matches Some(text) ==> Some(text@) == rfc3339_secs(secs, nanos),
{
    chrono::DateTime::from_timestamp(secs, nanos).map(
        |time| time.to_rfc3339_opts(chrono::SecondsFormat::Secs, true),
    )
}

/// `DateTime::from_timestamp`, then `to_rfc3339_opts` with
/// `SecondsFormat::AutoSi` and `Z`.
#[verifier::external_body]
fn format_auto(secs: i64, nanos: u32) -> (r: Option<String>)
    ensures
        r is Some <==> rfc3339_auto(secs, nanos) is Some,
        r matches Some(text) ==> Some(text@) == rfc3339_auto(secs, nanos),
{
    chrono::DateTime::from_timestamp(secs, nanos).map(
        |time| time.to_rfc3339_opts(chrono::SecondsFormat::AutoSi, true),
    )
}

/// `str::parse` as a `DateTime<Utc>`, by `DateTime::timestamp` and
/// `DateTime::timestamp_subsec_nanos`.
#[verifier::external_body]
fn parse_time(text: &str) -> (r: Option<Timestamp>)
    ensures
        r is Some <==> parsed_time(text@) is Some,
        r matches Some(t) ==> Some((t.secs, t.nanos)) == parsed_time(text@),
{
    text.parse::<chrono::DateTime<chrono::Utc>>().ok().map(
        |time| Timestamp { secs: time.timestamp(), nanos: time.timestamp_subsec_nanos() },
    )
}

impl Timestamp {
    /// Whether `self` is later than `other`.
    pub open spec fn is_after(self, other: Timestamp) -> bool {
        self.secs > other.secs || (self.secs == other.secs && self.nanos > other.nanos)
    }

    /// The time `seconds` later, or `None` where the seconds pass what an
    /// `i64` can hold.
    pub open spec fn spec_plus_seconds(self, seconds: u64) -> Option<Timestamp> {
        if self.secs + seconds <= i64::MAX {
            Some(Timestamp { secs: (self.secs + seconds) as i64, nanos: self.nanos })
        } else {
            None
        }
    }

    /// What the clock of the machine says. The nanoseconds are less than a
    /// second: the clock knows no leap second.
    pub fn now() -> (r: Timestamp)
        ensures
            r.nanos < 1_000_000_000,
    {
        current_time()
    }

    /// Whether `self` is later than `other`.
    pub fn after(&self, other: &Timestamp) -> (r: bool)
        ensures
            r == self.is_after(*other),
    {
        self.secs > other.secs || (self.secs == other.secs && self.nanos > other.nanos)
    }

    /// The time `seconds` later, or `None` where the seconds pass what an
    /// `i64` can hold.
    pub fn plus_seconds(&self, seconds: u64) -> (r: Option<Timestamp>)
        ensures
            r == self.spec_plus_seconds(seconds),
    {
        let sum = self.secs as i128 + seconds as i128;
        if sum <= i64::MAX as i128 {
            Some(Timestamp { secs: sum as i64, nanos: self.nanos })
        } else {
            None
        }
    }

    /// The time in RFC 3339 with whole seconds, in UTC; `None` for a time
    /// outside the years that the calendar covers.
    pub fn to_rfc3339(&self) -> (r: Option<String>)
        ensures
            r is Some <==> rfc3339_secs(self.secs, self.nanos) is Some,
            r matches Some(text) ==> Some(text@) == rfc3339_secs(self.secs, self.nanos),
    {
        format_secs(self.secs, self.nanos)
    }

    /// The time in RFC 3339 with the fraction of the second that it has, in
    /// UTC; `None` for a time outside the years that the calendar covers.
    pub fn to_rfc3339_precise(&self) -> (r: Option<String>)
        ensures
            r is Some <==> rfc3339_auto(self.secs, self.nanos) is Some,
            r matches Some(text) ==> Some(text@) == rfc3339_auto(self.secs, self.nanos),
    {
        format_auto(self.secs, self.nanos)
    }

    /// Reads a time in RFC 3339.
    pub fn parse(text: &str) -> (r: Option<Timestamp>)
        ensures
            r is Some <==> parsed_time(text@) is Some,
            r matches Some(t) ==> Some((t.secs, t.nanos)) == parsed_time(text@),
    {
        parse_time(text)
    }
}

impl ParamValue for Timestamp {
    open spec fn spec_value(&self) -> Seq<char> {
        match rfc3339_secs(self.secs, self.nanos) {
            Some(text) => text,
            None => Seq::empty(),
        }
    }

    fn as_value(&self) -> (r: String) {
        match self.to_rfc3339() {
            Some(text) => text,
            None => String::new(),
        }
    }
}

} // verus!
