//! Points in time, counted in milliseconds.

use vstd::prelude::*;

verus! {

/// The largest distance from the Unix epoch, in milliseconds, that a
/// `Timestamp` can have in either direction. The difference of two
/// timestamps therefore always fits in 64 bits.
pub const TIMESTAMP_LIMIT: i64 = 4_000_000_000_000_000_000;

/// A point in time: a number of milliseconds since the Unix epoch, positive
/// or negative, at most `TIMESTAMP_LIMIT` away from it.
#[derive(Debug, Clone, Copy, PartialEq, Eq, Structural)]
pub struct Timestamp {
    millis: i64,
}

impl View for Timestamp {
    type V = int;

    /// The number of milliseconds since the Unix epoch.
    closed spec fn view(&self) -> int {
        self.millis as int
    }
}

impl DeepView for Timestamp {
    type V = int;

    open spec fn deep_view(&self) -> int {
        self@
    }
}

/// Calls `chrono::Utc::now()` and `DateTime::timestamp_millis`: the system
/// clock's reading in milliseconds since the Unix epoch. Nothing is claimed
/// of the reading but that it lies in the range that a `chrono::DateTime`
/// can hold at all, whose years run from -262143 to 262142. `Utc::now()`
/// panics where the system clock reads a time before 1970.
#[verifier::external_body]
fn system_clock_millis() -> (ms: i64)
    ensures
        -TIMESTAMP_LIMIT <= ms <= TIMESTAMP_LIMIT,
{
    chrono::Utc::now().timestamp_millis()
}

impl Timestamp {
    #[verifier::type_invariant]
    spec fn in_range(self) -> bool {
        -TIMESTAMP_LIMIT <= self.millis <= TIMESTAMP_LIMIT
    }

    /// The timestamp `ms` milliseconds after the Unix epoch, if `ms` is
    /// within `TIMESTAMP_LIMIT` of it.
    pub fn from_millis(ms: i64) -> (r: Option<Timestamp>)
        ensures
            r is Some <==> -TIMESTAMP_LIMIT <= ms <= TIMESTAMP_LIMIT,
            r matches Some(t) ==> t@ == ms,
    {
        if -TIMESTAMP_LIMIT <= ms && ms <= TIMESTAMP_LIMIT {
            Some(Timestamp { millis: ms })
        } else {
            None
        }
    }

    /// The Unix epoch itself.
    pub fn epoch() -> (t: Timestamp)
        ensures
            t@ == 0,
    {
        Timestamp { millis: 0 }
    }

    /// The current time, as the system clock gives it. Which time that is
    /// is for the clock to say; whatever it reads lies within
    /// `TIMESTAMP_LIMIT` of the Unix epoch.
    pub fn now() -> (t: Timestamp)
        ensures
            -TIMESTAMP_LIMIT <= t@ <= TIMESTAMP_LIMIT,
    {
        Timestamp { millis: system_clock_millis() }
    }

    /// The number of milliseconds since the Unix epoch.
    pub fn millis(&self) -> (ms: i64)
        ensures
            ms == self@,
            -TIMESTAMP_LIMIT <= ms <= TIMESTAMP_LIMIT,
    {
        proof {
            use_type_invariant(self);
        }
        self.millis
    }

    /// The number of milliseconds from `earlier` to `self`; negative where
    /// `earlier` is in fact the later of the two.
    pub fn millis_since(&self, earlier: &Timestamp) -> (d: i64)
        ensures
            d == self@ - earlier@,
    {
        proof {
            use_type_invariant(self);
            use_type_invariant(earlier);
        }
        self.millis - earlier.millis
    }
}

} // verus!
