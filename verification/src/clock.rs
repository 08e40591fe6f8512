//! Instants on the UTC time line, with nanosecond precision.
//!
//! An instant is held as plain integers, so that ordering and differences are
//! computed and proved here. The `chrono` crate is asked for three things only:
//! the current time, whether its calendar can hold an instant, and the text it
//! prints for one.

use chrono::{DateTime, Utc};
use vstd::prelude::*;

verus! {

/// Nanoseconds in one second.
pub const NANOS_PER_SECOND: u32 = 1_000_000_000;

/// Whether `chrono::DateTime::from_timestamp(secs, nanos)` yields a date, that
/// is, whether chrono's calendar reaches the instant.
pub uninterp spec fn utc_representable(secs: i64, nanos: u32) -> bool;

/// The text that `chrono` displays for the UTC instant `secs` seconds and
/// `nanos` nanoseconds after the Unix epoch.
pub uninterp spec fn utc_text(secs: i64, nanos: u32) -> Seq<char>;

/// An instant: whole seconds since the Unix epoch and the nanoseconds past
/// that second. Leap-second encodings are not held.
#[derive(Clone, Copy, Debug, PartialEq, Eq, Structural)]
pub struct Timestamp {
    secs: i64,
    nanos: u32,
}

/// A signed length of time in nanoseconds.
#[derive(Clone, Copy, Debug, PartialEq, Eq, Structural)]
pub struct TimeSpan {
    pub nanos: i128,
}

/// Calls `chrono::DateTime::from_timestamp` and reports whether it returned a
/// date. Trusted: the answer is, by definition, [`utc_representable`].
#[verifier::external_body]
fn calendar_holds(secs: i64, nanos: u32) -> (b: bool)
    ensures
        b == utc_representable(secs, nanos),
{
    DateTime::from_timestamp(secs, nanos).is_some()
}

/// Calls `chrono::Utc::now` and returns its `timestamp()` and
/// `timestamp_subsec_nanos()`. Trusted: the system clock never reports a leap
/// second, and what chrono built it can build again from the same two numbers.
/// Nothing is claimed about which instant comes back. chrono itself panics if
/// the system clock stands before 1970.
#[verifier::external_body]
fn read_clock() -> (r: (i64, u32))
    ensures
        r.1 < NANOS_PER_SECOND,
        utc_representable(r.0, r.1),
{
    let t = Utc::now();
    (t.timestamp(), t.timestamp_subsec_nanos())
}

/// Calls `chrono::DateTime::from_timestamp` and then the date's `Display`
/// impl (`to_string`). Trusted: the text is, by definition, [`utc_text`].
#[verifier::external_body]
fn print_utc(secs: i64, nanos: u32) -> (s: String)
    requires
        utc_representable(secs, nanos),
    ensures
        s@ == utc_text(secs, nanos),
{
    match DateTime::from_timestamp(secs, nanos) {
        Some(t) => t.to_string(),
        None => String::new(),
    }
}

impl Timestamp {
    /// What every `Timestamp` that executable code holds satisfies: the
    /// nanoseconds stay below one second and the calendar reaches the instant.
    #[verifier::type_invariant]
    pub open spec fn wf(self) -> bool {
        self.spec_nanos() < NANOS_PER_SECOND && utc_representable(
            self.spec_secs(),
            self.spec_nanos(),
        )
    }

    /// Whole seconds since the Unix epoch.
    pub closed spec fn spec_secs(&self) -> i64 {
        self.secs
    }

    /// Nanoseconds past the whole second.
    pub closed spec fn spec_nanos(&self) -> u32 {
        self.nanos
    }

    /// The instant as one number: nanoseconds since the Unix epoch.
    pub open spec fn instant(self) -> int {
        self.spec_secs() * 1_000_000_000 + self.spec_nanos()
    }

    /// The text of the instant, as [`utc_text`] names it.
    pub open spec fn text(self) -> Seq<char> {
        utc_text(self.spec_secs(), self.spec_nanos())
    }

    /// The instant `secs` seconds and `nanos` nanoseconds after the Unix epoch,
    /// or `None` if `nanos` is a second or more or the calendar does not reach
    /// that far.
    pub fn new(secs: i64, nanos: u32) -> (r: Option<Timestamp>)
        ensures
            r is Some <==> nanos < NANOS_PER_SECOND && utc_representable(secs, nanos),
            r matches Some(t) ==> t.spec_secs() == secs && t.spec_nanos() == nanos && t.wf(),
    {
        if nanos < NANOS_PER_SECOND && calendar_holds(secs, nanos) {
            Some(Timestamp { secs, nanos })
        } else {
            None
        }
    }

    /// The current time by the system clock.
    pub fn now() -> (t: Timestamp)
        ensures
            t.wf(),
    {
        let (secs, nanos) = read_clock();
        Timestamp { secs, nanos }
    }

    #[verifier::when_used_as_spec(spec_secs)]
    pub fn secs(&self) -> (s: i64)
        ensures
            s == self.spec_secs(),
    {
        self.secs
    }

    #[verifier::when_used_as_spec(spec_nanos)]
    pub fn nanos(&self) -> (n: u32)
        ensures
            n == self.spec_nanos(),
            n < NANOS_PER_SECOND,
    {
        proof {
            use_type_invariant(self);
        }
        self.nanos
    }

    /// Whether `self` lies strictly before `other`.
    pub fn is_before(&self, other: &Timestamp) -> (b: bool)
        ensures
            b == (self.instant() < other.instant()),
    {
        proof {
            use_type_invariant(self);
            use_type_invariant(other);
        }
        self.secs < other.secs || (self.secs == other.secs && self.nanos < other.nanos)
    }

    /// Whether `self` lies strictly after `other`.
    pub fn is_after(&self, other: &Timestamp) -> (b: bool)
        ensures
            b == (self.instant() > other.instant()),
    {
        other.is_before(self)
    }

    /// The time from `self` until `later`; negative if `later` has passed.
    pub fn until(&self, later: &Timestamp) -> (d: TimeSpan)
        ensures
            d.nanos == later.instant() - self.instant(),
    {
        proof {
            use_type_invariant(self);
            use_type_invariant(later);
        }
        let whole: i128 = (later.secs as i128 - self.secs as i128) * 1_000_000_000;
        TimeSpan { nanos: whole + (later.nanos as i128 - self.nanos as i128) }
    }

    /// The instant as text, for example `2015-05-15 00:00:00 UTC`.
    pub fn to_text(&self) -> (s: String)
        ensures
            s@ == self.text(),
    {
        proof {
            use_type_invariant(self);
        }
        print_utc(self.secs, self.nanos)
    }
}

/// Two instants with the same seconds and nanoseconds are the same instant,
/// and the order of instants is the order of (seconds, nanoseconds) pairs.
pub proof fn lemma_instant_order(a: Timestamp, b: Timestamp)
    requires
        a.wf(),
        b.wf(),
    ensures
        a.instant() == b.instant() <==> a == b,
        a.instant() < b.instant() <==> (a.spec_secs() < b.spec_secs() || (a.spec_secs()
            == b.spec_secs() && a.spec_nanos() < b.spec_nanos())),
{
}

} // verus!
