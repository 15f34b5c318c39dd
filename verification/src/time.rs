//! Instants and spans of time as plain integers, and their RFC 3339 text.
//!
//! A [`Timestamp`] counts from the Unix epoch and stays within the years
//! that an RFC 3339 timestamp with a four-digit year can express, so every
//! value of the type has a textual form.

use std::time::Duration;
use std::time::UNIX_EPOCH;
use vstd::prelude::*;

verus! {

/// Number of nanoseconds in one second.
pub const NANOS_PER_SEC: u32 = 1_000_000_000;

/// First second that lies past the year 9999.
pub const END_OF_TIME_SECS: u64 = 253_402_300_800;

/// What `humantime::format_rfc3339_millis` writes for the instant that lies
/// `secs` seconds and `nanos` nanoseconds after the Unix epoch.
pub uninterp spec fn humantime_millis_text(secs: u64, nanos: u32) -> Seq<char>;

/// What `humantime::parse_rfc3339` reads from `text`: the seconds and
/// nanoseconds between the Unix epoch and the instant written there, or
/// `None` where it rejects the text. This is the parser as it is built
/// for targets that count the seconds of a `SystemTime` in 64 bits and
/// for `wasm32`; on other targets it refuses the years after 2038.
pub uninterp spec fn humantime_parsed(text: Seq<char>) -> Option<(u64, u32)>;

/// The RFC 3339 text, with milliseconds, of the instant that lies
/// `instant` nanoseconds after the Unix epoch.
pub open spec fn rfc3339_millis_text(instant: nat) -> Seq<char> {
    humantime_millis_text((instant / 1_000_000_000) as u64, (instant % 1_000_000_000) as u32)
}

/// The instant that the RFC 3339 timestamp `text` denotes, in nanoseconds
/// since the Unix epoch, or `None` where `text` is no such timestamp.
pub open spec fn rfc3339_instant(text: Seq<char>) -> Option<nat> {
    match humantime_parsed(text) {
        Some(parts) => Some(parts.0 as nat * 1_000_000_000 + parts.1 as nat),
        None => None,
    }
}

/// A length of time, counted in nanoseconds.
#[derive(Clone, Copy, Debug, PartialEq, Eq, PartialOrd, Ord, Hash)]
pub struct TimeSpan {
    nanos: u128,
}

impl View for TimeSpan {
    type V = nat;

    /// The span in nanoseconds.
    closed spec fn view(&self) -> nat {
        self.nanos as nat
    }
}

impl TimeSpan {
    /// A span of `secs` seconds.
    pub fn from_secs(secs: u64) -> (span: TimeSpan)
        ensures
            span@ == secs as nat * 1_000_000_000,
    {
        let wide: u128 = secs as u128;
        TimeSpan { nanos: wide * 1_000_000_000 }
    }

    /// A span of `millis` milliseconds.
    pub fn from_millis(millis: u64) -> (span: TimeSpan)
        ensures
            span@ == millis as nat * 1_000_000,
    {
        let wide: u128 = millis as u128;
        TimeSpan { nanos: wide * 1_000_000 }
    }
}

/// Whether an instant `nanos` nanoseconds after the epoch lies before the year 10000.
pub open spec fn representable(nanos: int) -> bool {
    0 <= nanos < END_OF_TIME_SECS as int * NANOS_PER_SEC as int
}

/// An instant between the Unix epoch and the end of the year 9999, with
/// nanosecond resolution.
#[derive(Clone, Copy, Debug, PartialEq, Eq, PartialOrd, Ord, Hash)]
pub struct Timestamp {
    nanos: u128,
}

impl View for Timestamp {
    type V = nat;

    /// Nanoseconds since the Unix epoch.
    closed spec fn view(&self) -> nat {
        self.nanos as nat
    }
}

impl Timestamp {
    #[verifier::type_invariant]
    closed spec fn in_range(&self) -> bool {
        representable(self.nanos as int)
    }

    /// The Unix epoch itself.
    pub fn unix_epoch() -> (t: Timestamp)
        ensures
            t@ == 0,
    {
        Timestamp { nanos: 0 }
    }

    /// The instant `secs` seconds and `nanos` nanoseconds after the epoch,
    /// or `None` when `nanos` is not below one second or the instant lies
    /// past the year 9999.
    pub fn new(secs: u64, nanos: u32) -> (r: Option<Timestamp>)
        ensures
            r is Some <==> secs < END_OF_TIME_SECS && nanos < NANOS_PER_SEC,
            r matches Some(t) ==> t@ == secs as nat * 1_000_000_000 + nanos as nat,
    {
        if secs < END_OF_TIME_SECS && nanos < NANOS_PER_SEC {
            let wide_secs: u128 = secs as u128;
            let wide_nanos: u128 = nanos as u128;
            Some(Timestamp { nanos: wide_secs * 1_000_000_000 + wide_nanos })
        } else {
            None
        }
    }

    /// The instant `millis` milliseconds after the epoch, or `None` when it
    /// lies past the year 9999.
    pub fn from_unix_millis(millis: u64) -> (r: Option<Timestamp>)
        ensures
            r is Some <==> representable(millis as int * 1_000_000),
            r matches Some(t) ==> t@ == millis as nat * 1_000_000,
    {
        let wide: u128 = millis as u128;
        let nanos: u128 = wide * 1_000_000;
        if nanos < 253_402_300_800_000_000_000 {
            Some(Timestamp { nanos })
        } else {
            None
        }
    }

    /// Whole seconds since the epoch.
    pub fn secs(&self) -> (s: u64)
        ensures
            s == self@ / 1_000_000_000,
            s < END_OF_TIME_SECS,
    {
        proof {
            use_type_invariant(self);
        }
        (self.nanos / 1_000_000_000) as u64
    }

    /// Nanoseconds past the last whole second.
    pub fn subsec_nanos(&self) -> (n: u32)
        ensures
            n == self@ % 1_000_000_000,
            n < NANOS_PER_SEC,
    {
        (self.nanos % 1_000_000_000) as u32
    }

    /// Whether `self` lies strictly after `other`.
    pub fn is_after(&self, other: &Timestamp) -> (r: bool)
        ensures
            r == (self@ > other@),
    {
        self.nanos > other.nanos
    }

    /// The instant `span` after `self`, or `None` when that instant lies
    /// past the year 9999.
    pub fn checked_add(&self, span: TimeSpan) -> (r: Option<Timestamp>)
        ensures
            r is Some <==> representable((self@ + span@) as int),
            r matches Some(t) ==> t@ == self@ + span@,
    {
        proof {
            use_type_invariant(self);
        }
        if span.nanos >= 253_402_300_800_000_000_000 {
            return None;
        }
        let nanos: u128 = self.nanos + span.nanos;
        if nanos < 253_402_300_800_000_000_000 {
            Some(Timestamp { nanos })
        } else {
            None
        }
    }

    /// The instant `span` before `self`, or `None` when that instant lies
    /// before the epoch.
    pub fn checked_sub(&self, span: TimeSpan) -> (r: Option<Timestamp>)
        ensures
            r is Some <==> span@ <= self@,
            r matches Some(t) ==> t@ == self@ - span@,
    {
        proof {
            use_type_invariant(self);
        }
        if span.nanos <= self.nanos {
            Some(Timestamp { nanos: self.nanos - span.nanos })
        } else {
            None
        }
    }

    /// The timestamp as RFC 3339 text in UTC with millisecond precision,
    /// such as `2018-02-14T00:28:07.000Z`.
    pub fn to_rfc3339_millis(&self) -> (text: String)
        ensures
            text@ == rfc3339_millis_text(self@),
    {
        let secs: u64 = self.secs();
        let nanos: u32 = self.subsec_nanos();
        format_rfc3339_millis(secs, nanos)
    }

    /// Reads an RFC 3339 timestamp in UTC, such as `2018-02-14T00:28:07Z`
    /// or `2018-02-14T00:28:07.133+00:00`.
    pub fn parse_rfc3339(text: &str) -> (r: Option<Timestamp>)
        ensures
            r is Some <==> rfc3339_instant(text@) is Some,
            r matches Some(t) ==> rfc3339_instant(text@) == Some(t@),
    {
        match parse_rfc3339_parts(text) {
            Some((secs, nanos)) => {
                let wide_secs: u128 = secs as u128;
                let wide_nanos: u128 = nanos as u128;
                Some(Timestamp { nanos: wide_secs * 1_000_000_000 + wide_nanos })
            },
            None => None,
        }
    }
}

/// The view of an optional timestamp.
pub open spec fn opt_instant(time: Option<Timestamp>) -> Option<nat> {
    match time {
        Some(t) => Some(t@),
        None => None,
    }
}

/// Calls `humantime::format_rfc3339_millis` on the instant `secs` seconds
/// and `nanos` nanoseconds after `UNIX_EPOCH` and renders it to a string.
///
/// The contract only names the text. The renderer fails for instants past
/// the year 9999, which the precondition keeps out.
#[verifier::external_body]
fn format_rfc3339_millis(secs: u64, nanos: u32) -> (text: String)
    requires
        secs < END_OF_TIME_SECS,
        nanos < NANOS_PER_SEC,
    ensures
        text@ == humantime_millis_text(secs, nanos),
{
    humantime::format_rfc3339_millis(UNIX_EPOCH + Duration::new(secs, nanos)).to_string()
}

/// Calls `humantime::parse_rfc3339` and hands back the parsed instant as
/// seconds and nanoseconds since `UNIX_EPOCH`.
///
/// The parser only accepts years from 1970 to 9999 and computes the
/// fraction from at most nine digits, which gives the two bounds.
#[verifier::external_body]
fn parse_rfc3339_parts(text: &str) -> (r: Option<(u64, u32)>)
    ensures
        r == humantime_parsed(text@),
        r matches Some(p) ==> p.0 < END_OF_TIME_SECS && p.1 < NANOS_PER_SEC,
{
    let since_epoch = humantime::parse_rfc3339(text).ok()?.duration_since(UNIX_EPOCH).ok()?;
    Some((since_epoch.as_secs(), since_epoch.subsec_nanos()))
}

} // verus!
