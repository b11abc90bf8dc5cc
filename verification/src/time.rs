//! Points in time and signed durations, as the validity period of a certificate uses them. Both
//! are held as plain numbers, within the ranges that `chrono` represents; `chrono` does the
//! arithmetic.

use vstd::prelude::*;

verus! {

/// Whether `chrono` represents the point `seconds` (plus `nanos` nanoseconds) after the Unix
/// epoch as a `DateTime<Utc>`: the point lies between the first second of the year -262143 and
/// the last second of the year 262142, and the nanoseconds are below one second, or below two
/// in the last second of a minute (a leap second).
pub open spec fn chrono_datetime_valid(seconds: i64, nanos: u32) -> bool {
    &&& -8_334_601_228_800 <= seconds <= 8_210_266_876_799
    &&& (nanos < 1_000_000_000 || (nanos < 2_000_000_000 && seconds % 60 == 59))
}

/// Whether `chrono` accepts (`seconds`, `nanos`) as a `TimeDelta`: the nanoseconds are below
/// one second and the span lies within `i64::MAX` milliseconds either way.
pub open spec fn chrono_delta_valid(seconds: i64, nanos: u32) -> bool {
    &&& -9_223_372_036_854_776 <= seconds <= 9_223_372_036_854_775
    &&& nanos < 1_000_000_000
    &&& (seconds == 9_223_372_036_854_775 ==> nanos <= 807_000_000)
    &&& (seconds == -9_223_372_036_854_776 ==> nanos >= 193_000_000)
}

/// What `chrono`'s `DateTime::checked_add_signed` gives for the point (`seconds`, `nanos`) and
/// the delta (`delta_seconds`, `delta_nanos`), as (seconds, nanoseconds) since the epoch.
pub uninterp spec fn chrono_checked_add(seconds: i64, nanos: u32, delta_seconds: i64, delta_nanos: u32) -> Option<(i64, u32)>;

/// A point in time in UTC: seconds since the Unix epoch and the nanoseconds within that second.
#[derive(Debug, Clone, Copy)]
pub struct UtcDateTime {
    seconds: i64,
    nanos: u32,
}

impl View for UtcDateTime {
    type V = (i64, u32);

    closed spec fn view(&self) -> (i64, u32) {
        (self.seconds, self.nanos)
    }
}

/// Whether the point `a` lies strictly after the point `b`.
pub open spec fn spec_after(a: (i64, u32), b: (i64, u32)) -> bool {
    a.0 > b.0 || (a.0 == b.0 && a.1 > b.1)
}

impl UtcDateTime {
    #[verifier::type_invariant]
    spec fn inv(self) -> bool {
        chrono_datetime_valid(self.seconds, self.nanos)
    }

    /// The point (`seconds`, `nanos`) after the epoch, if `chrono` represents it.
    pub fn from_timestamp(seconds: i64, nanos: u32) -> (r: Option<Self>)
        ensures
            r is Some <==> chrono_datetime_valid(seconds, nanos),
            r matches Some(t) ==> t@ == (seconds, nanos),
    {
        if chrono_represents(seconds, nanos) {
            Some(UtcDateTime { seconds, nanos })
        } else {
            None
        }
    }

    /// The current time, from the system clock through `chrono`.
    pub fn now() -> (r: Self) {
        let (seconds, nanos) = chrono_now();
        UtcDateTime { seconds, nanos }
    }

    pub fn seconds(&self) -> (r: i64)
        ensures r == self@.0,
    {
        self.seconds
    }

    pub fn subsec_nanos(&self) -> (r: u32)
        ensures r == self@.1,
    {
        self.nanos
    }

    /// Whether this point lies strictly after `other`.
    pub fn is_after(&self, other: &UtcDateTime) -> (r: bool)
        ensures r == spec_after(self@, other@),
    {
        self.seconds > other.seconds || (self.seconds == other.seconds && self.nanos > other.nanos)
    }

    /// This point moved by `delta`, or `None` where the result leaves `chrono`'s range.
    pub fn checked_add(&self, delta: &Duration) -> (r: Option<UtcDateTime>)
        ensures
            r matches Some(t) ==> chrono_checked_add(self@.0, self@.1, delta@.0, delta@.1) == Some(t@),
            r is None ==> chrono_checked_add(self@.0, self@.1, delta@.0, delta@.1) is None,
    {
        proof {
            use_type_invariant(self);
            use_type_invariant(delta);
        }
        match checked_add_raw(self.seconds, self.nanos, delta.seconds, delta.nanos) {
            Some((s, n)) => Some(UtcDateTime { seconds: s, nanos: n }),
            None => None,
        }
    }
}

/// A signed span of time: whole seconds and the additional nanoseconds, below one second.
#[derive(Debug, Clone, Copy)]
pub struct Duration {
    seconds: i64,
    nanos: u32,
}

impl View for Duration {
    type V = (i64, u32);

    closed spec fn view(&self) -> (i64, u32) {
        (self.seconds, self.nanos)
    }
}

impl Duration {
    #[verifier::type_invariant]
    spec fn inv(self) -> bool {
        chrono_delta_valid(self.seconds, self.nanos)
    }

    /// The span of `seconds` seconds and `nanos` nanoseconds, if `chrono` accepts it.
    pub fn new(seconds: i64, nanos: u32) -> (r: Option<Self>)
        ensures
            r is Some <==> chrono_delta_valid(seconds, nanos),
            r matches Some(d) ==> d@ == (seconds, nanos),
    {
        if chrono_accepts_delta(seconds, nanos) {
            Some(Duration { seconds, nanos })
        } else {
            None
        }
    }

    pub fn seconds(&self) -> (r: i64)
        ensures r == self@.0,
    {
        self.seconds
    }

    pub fn subsec_nanos(&self) -> (r: u32)
        ensures r == self@.1,
    {
        self.nanos
    }
}

/// Whether `chrono`'s `DateTime::from_timestamp` accepts (`seconds`, `nanos`).
#[verifier::external_body]
fn chrono_represents(seconds: i64, nanos: u32) -> (r: bool)
    ensures r == chrono_datetime_valid(seconds, nanos),
{
    match chrono::DateTime::from_timestamp(seconds, nanos) {
        Some(_) => true,
        None => false,
    }
}

/// Whether `chrono`'s `TimeDelta::new` accepts (`seconds`, `nanos`).
#[verifier::external_body]
fn chrono_accepts_delta(seconds: i64, nanos: u32) -> (r: bool)
    ensures r == chrono_delta_valid(seconds, nanos),
{
    match chrono::TimeDelta::new(seconds, nanos) {
        Some(_) => true,
        None => false,
    }
}

/// `chrono`'s `Utc::now`, as seconds and nanoseconds since the epoch. Nothing is said of which
/// time it is; `chrono` documents that `DateTime::from_timestamp` takes back the seconds and
/// nanoseconds of any `DateTime` it made.
#[verifier::external_body]
fn chrono_now() -> (r: (i64, u32))
    ensures chrono_datetime_valid(r.0, r.1),
{
    let t = chrono::Utc::now();
    (t.timestamp(), t.timestamp_subsec_nanos())
}

/// `chrono`'s `checked_add_signed` on a point and a delta that it represents.
#[verifier::external_body]
fn checked_add_raw(seconds: i64, nanos: u32, delta_seconds: i64, delta_nanos: u32) -> (r: Option<(i64, u32)>)
    requires
        chrono_datetime_valid(seconds, nanos),
        chrono_delta_valid(delta_seconds, delta_nanos),
    ensures
        r == chrono_checked_add(seconds, nanos, delta_seconds, delta_nanos),
        r matches Some(p) ==> chrono_datetime_valid(p.0, p.1),
{
    let t = chrono::DateTime::from_timestamp(seconds, nanos).unwrap();
    let d = chrono::TimeDelta::new(delta_seconds, delta_nanos).unwrap();
    match t.checked_add_signed(d) {
        Some(u) => Some((u.timestamp(), u.timestamp_subsec_nanos())),
        None => None,
    }
}

} // verus!
