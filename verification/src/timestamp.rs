use vstd::prelude::*;

verus! {

/// Nanoseconds since the Unix epoch at the earliest representable UTC
/// datetime, the first instant of the year -9999.
pub const MIN_TIMESTAMP_NANOS: i128 = -377_705_116_800_000_000_000;

/// Nanoseconds since the Unix epoch at the latest representable UTC
/// datetime, the last nanosecond of the year 9999.
pub const MAX_TIMESTAMP_NANOS: i128 = 253_402_300_799_999_999_999;

/// Whether a raw nanosecond count lies in the representable datetime range.
pub open spec fn nanos_in_range(nanos: i128) -> bool {
    MIN_TIMESTAMP_NANOS <= nanos <= MAX_TIMESTAMP_NANOS
}

/// A UTC point in time with nanosecond resolution, held as a count of
/// nanoseconds since the Unix epoch and kept within the representable
/// datetime range (years -9999 through 9999).
#[derive(Debug, Clone, Copy, PartialEq, Eq, Structural)]
pub struct Timestamp {
    nanos: i128,
}

impl Timestamp {
    /// The nanosecond count this timestamp stands for.
    pub closed spec fn spec_nanos(self) -> i128 {
        self.nanos
    }

    /// A timestamp is well formed when its count lies in the
    /// representable datetime range.
    pub open spec fn is_valid(self) -> bool {
        nanos_in_range(self.spec_nanos())
    }

    /// Builds a timestamp from a raw nanosecond count; counts outside the
    /// representable datetime range are rejected.
    pub fn from_nanos(nanos: i128) -> (r: Option<Timestamp>)
        ensures
            r is Some <==> nanos_in_range(nanos),
            r matches Some(t) ==> t.spec_nanos() == nanos && t.is_valid(),
    {
        if MIN_TIMESTAMP_NANOS <= nanos && nanos <= MAX_TIMESTAMP_NANOS {
            Some(Timestamp { nanos })
        } else {
            None
        }
    }

    /// The raw nanosecond count.
    pub fn nanos(&self) -> (r: i128)
        ensures
            r == self.spec_nanos(),
    {
        self.nanos
    }

    /// Reads the wall clock.
    ///
    /// Relies on `time::OffsetDateTime::now_utc` and
    /// `unix_timestamp_nanos`: every datetime that type can hold lies in
    /// the representable range, so the reading does too; which instant
    /// comes back depends on the clock and is not pinned down.
    #[verifier::external_body]
    pub fn now() -> (r: Timestamp)
        ensures
            r.is_valid(),
    {
        Timestamp { nanos: time::OffsetDateTime::now_utc().unix_timestamp_nanos() }
    }
}

} // verus!
