//! Instants on the UTC time line, with the arithmetic that expiry windows need.

use chrono::DateTime;
use vstd::prelude::*;

verus! {

/// Seconds since the Unix epoch of the earliest instant that can be held:
/// midnight at the start of the year -262143.
pub const MIN_SECONDS: i64 = -8_334_601_228_800;

/// Seconds since the Unix epoch of the last second that can be held:
/// the final second of the year 262142.
pub const MAX_SECONDS: i64 = 8_210_266_876_799;

/// Nanoseconds in one second.
pub const NANOS_PER_SECOND: u32 = 1_000_000_000;

/// A point on the UTC time line as a mathematical value: whole seconds since the
/// Unix epoch, and the nanoseconds that have passed since that whole second.
pub struct Moment {
    pub secs: int,
    pub nanos: int,
}

impl Moment {
    /// Whether an [`Instant`] can hold this moment.
    pub open spec fn representable(self) -> bool {
        &&& MIN_SECONDS <= self.secs <= MAX_SECONDS
        &&& 0 <= self.nanos < NANOS_PER_SECOND
    }

    /// Strictly earlier than `other`.
    pub open spec fn before(self, other: Moment) -> bool {
        self.secs < other.secs || (self.secs == other.secs && self.nanos < other.nanos)
    }

    /// Not later than `other`.
    pub open spec fn at_or_before(self, other: Moment) -> bool {
        self.before(other) || self == other
    }

    /// This moment moved `seconds` seconds into the future.
    pub open spec fn plus_seconds(self, seconds: int) -> Moment {
        Moment { secs: self.secs + seconds, nanos: self.nanos }
    }

    /// Nanoseconds from `earlier` to this moment; negative where this one comes first.
    pub open spec fn nanos_since(self, earlier: Moment) -> int {
        (self.secs - earlier.secs) * 1_000_000_000 + (self.nanos - earlier.nanos)
    }

    /// Whole seconds from `earlier` to this moment, rounded towards zero.
    pub open spec fn whole_seconds_since(self, earlier: Moment) -> int {
        let n = self.nanos_since(earlier);
        if n >= 0 {
            n / 1_000_000_000
        } else {
            -((-n) / 1_000_000_000)
        }
    }
}

/// A point on the UTC time line between the start of the year -262143 and the end
/// of the year 262142, to the nanosecond. Leap seconds have no representation.
#[derive(Clone, Copy, Debug, PartialEq, Eq, Hash)]
pub struct Instant {
    secs: i64,
    nanos: u32,
}

impl View for Instant {
    type V = Moment;

    closed spec fn view(&self) -> Moment {
        Moment { secs: self.secs as int, nanos: self.nanos as int }
    }
}

impl Instant {
    #[verifier::type_invariant]
    pub closed spec fn in_range(self) -> bool {
        self@.representable()
    }

    /// The instant `secs` seconds after the Unix epoch plus `nanos` nanoseconds,
    /// or `None` where that lies outside the range or `nanos` is a second or more.
    pub fn new(secs: i64, nanos: u32) -> (made: Option<Instant>)
        ensures
            made is Some <==> (Moment { secs: secs as int, nanos: nanos as int }).representable(),
            made matches Some(t) ==> t@ == (Moment { secs: secs as int, nanos: nanos as int }),
    {
        if MIN_SECONDS <= secs && secs <= MAX_SECONDS && nanos < NANOS_PER_SECOND {
            Some(Instant { secs, nanos })
        } else {
            None
        }
    }

    /// Whole seconds since the Unix epoch.
    pub fn timestamp(&self) -> (secs: i64)
        ensures
            secs == self@.secs,
            self@.representable(),
    {
        proof {
            use_type_invariant(self);
        }
        self.secs
    }

    /// Nanoseconds since the last whole second.
    pub fn subsec_nanos(&self) -> (nanos: u32)
        ensures
            nanos == self@.nanos,
            self@.representable(),
    {
        proof {
            use_type_invariant(self);
        }
        self.nanos
    }

    /// Whether this instant lies strictly before `other`.
    pub fn is_before(&self, other: &Instant) -> (earlier: bool)
        ensures
            earlier == self@.before(other@),
    {
        self.secs < other.secs || (self.secs == other.secs && self.nanos < other.nanos)
    }

    /// This instant as RFC 3339 writes it.
    pub fn to_rfc3339(&self) -> (text: String)
        ensures
            text@ == rfc3339_text(self@.secs, self@.nanos),
    {
        proof {
            use_type_invariant(self);
        }
        format_rfc3339(self.secs, self.nanos).unwrap()
    }

    /// Whole seconds from `earlier` to this instant, rounded towards zero.
    pub fn whole_seconds_since(&self, earlier: &Instant) -> (seconds: i64)
        ensures
            seconds == self@.whole_seconds_since(earlier@),
    {
        proof {
            use_type_invariant(self);
            use_type_invariant(earlier);
        }
        let whole: i64 = self.secs - earlier.secs;
        if whole > 0 && self.nanos < earlier.nanos {
            whole - 1
        } else if whole < 0 && self.nanos > earlier.nanos {
            whole + 1
        } else {
            whole
        }
    }
}

/// The text that RFC 3339 prescribes for the UTC date and time that lie `secs` seconds
/// and `nanos` nanoseconds after the Unix epoch, as `chrono` writes it: with the
/// offset `+00:00`, and with as many digits for the fraction of a second as it needs.
pub uninterp spec fn rfc3339_text(secs: int, nanos: int) -> Seq<char>;

/// `DateTime::to_rfc3339` on the UTC date and time that `DateTime::from_timestamp`
/// makes of `secs` and `nanos`. Every moment that an [`Instant`] can hold is in the
/// range of `from_timestamp`; the text depends on the two numbers alone.
#[verifier::external_body]
fn format_rfc3339(secs: i64, nanos: u32) -> (text: Option<String>)
    ensures
        (Moment { secs: secs as int, nanos: nanos as int }).representable() ==> text is Some,
        text matches Some(written) ==> written@ == rfc3339_text(secs as int, nanos as int),
{
    match DateTime::from_timestamp(secs, nanos) {
        Some(time) => Some(time.to_rfc3339()),
        None => None,
    }
}

/// Two instants that stand for the same moment are the same instant.
pub proof fn lemma_moment_determines_instant(a: Instant, b: Instant)
    requires
        a@ == b@,
    ensures
        a == b,
{
}

/// The instant at which something obtained at `reference` and valid for
/// `duration` seconds expires.
pub fn compute_expiry(reference: Instant, duration: u32) -> (expiry: Instant)
    requires
        reference@.secs + duration <= MAX_SECONDS,
    ensures
        expiry@ == reference@.plus_seconds(duration as int),
{
    proof {
        use_type_invariant(reference);
    }
    Instant { secs: reference.secs + duration as i64, nanos: reference.nanos }
}

/// A longer duration never gives an earlier expiry.
pub proof fn lemma_expiry_monotonic(reference: Moment, shorter: int, longer: int)
    requires
        shorter <= longer,
    ensures
        reference.plus_seconds(shorter).at_or_before(reference.plus_seconds(longer)),
{
}

} // verus!
