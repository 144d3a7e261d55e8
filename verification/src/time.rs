use vstd::prelude::*;

verus! {

/// A point in time as the database stores it: whole seconds since the Unix
/// epoch and the nanoseconds past that second (above 999,999,999 only
/// inside a leap second).
#[derive(Clone, Copy, Debug, PartialEq, Eq, Structural)]
pub struct DateTime {
    pub secs: i64,
    pub nanos: u32,
}

/// A point in time as the wire format carries it.
#[derive(Clone, Copy, Debug, PartialEq, Eq, Structural)]
pub struct Timestamp {
    pub seconds: i64,
    pub nanos: i32,
}

/// Whether chrono accepts these seconds and nanoseconds as a point in time.
pub uninterp spec fn timestamp_valid(secs: i64, nanos: u32) -> bool;

/// Calls `chrono::DateTime::from_timestamp` and reports whether it returned
/// a value. Claimed, from chrono's documentation and source: nanoseconds of
/// a billion or more are accepted only as a leap second, in the last second
/// of a minute, and never reach two billion; any second from the start of
/// the year 1 to the end of the year 9999 is accepted with nanoseconds below
/// a billion; and nothing outside chrono's years (262144 BCE to 262142 CE,
/// about 8.3 trillion seconds either side of the epoch) is accepted, which
/// is claimed here with some room to spare. The exact first and last
/// second of chrono's range is not stated.
#[verifier::external_body]
fn chrono_accepts(secs: i64, nanos: u32) -> (res: bool)
    ensures
        res == timestamp_valid(secs, nanos),
        res ==> nanos < 2_000_000_000,
        res ==> (nanos < 1_000_000_000 || secs % 60 == 59),
        (-62_135_596_800 <= secs < 253_402_300_800 && nanos < 1_000_000_000) ==> res,
        res ==> -8_400_000_000_000 <= secs <= 8_300_000_000_000,
{
    chrono::DateTime::from_timestamp(secs, nanos).is_some()
}

/// The Unix epoch, which a timestamp that chrono refuses becomes.
pub open spec fn epoch() -> DateTime {
    DateTime { secs: 0, nanos: 0 }
}

/// The wire form of a stored time.
pub open spec fn spec_into_prost(time: DateTime) -> Timestamp {
    Timestamp { seconds: time.secs, nanos: time.nanos as i32 }
}

/// The stored time that a wire timestamp stands for; one that chrono
/// refuses becomes the epoch.
pub open spec fn spec_into_chrono(time: Timestamp) -> DateTime {
    if timestamp_valid(time.seconds, time.nanos as u32) {
        DateTime { secs: time.seconds, nanos: time.nanos as u32 }
    } else {
        epoch()
    }
}

/// Converts a stored time into its wire form.
pub fn into_prost(time: DateTime) -> (res: Timestamp)
    requires
        time.nanos < 2_000_000_000,
    ensures
        res == spec_into_prost(time),
        res.seconds == time.secs,
        res.nanos == time.nanos,
{
    Timestamp { seconds: time.secs, nanos: time.nanos as i32 }
}

/// Converts a wire timestamp into a stored time; one that chrono refuses
/// (a negative or too large nanosecond count, seconds out of range) becomes
/// the epoch.
pub fn into_chrono(time: Timestamp) -> (res: DateTime)
    ensures
        res == spec_into_chrono(time),
        res.nanos < 2_000_000_000,
        res.nanos >= 1_000_000_000 ==> res.secs % 60 == 59,
        (-62_135_596_800 <= time.seconds < 253_402_300_800 && 0 <= time.nanos < 1_000_000_000)
            ==> res == (DateTime { secs: time.seconds, nanos: time.nanos as u32 }),
        !(-8_400_000_000_000 <= time.seconds <= 8_300_000_000_000) ==> res == epoch(),
        time.nanos < 0 ==> res == epoch(),
{
    #[verifier::truncate]
    let nanos: u32 = time.nanos as u32;
    let raw: i32 = time.nanos;
    assert(raw < 0 ==> (raw as u32) >= 2_000_000_000u32) by (bit_vector);
    if chrono_accepts(time.seconds, nanos) {
        DateTime { secs: time.seconds, nanos }
    } else {
        DateTime { secs: 0, nanos: 0 }
    }
}

/// Whether `a` comes strictly after `b`.
pub open spec fn spec_is_after(a: DateTime, b: DateTime) -> bool {
    a.secs > b.secs || (a.secs == b.secs && a.nanos > b.nanos)
}

impl DateTime {
    /// Whether this time comes strictly after `other`.
    pub fn is_after(&self, other: &DateTime) -> (res: bool)
        ensures
            res == spec_is_after(*self, *other),
    {
        self.secs > other.secs || (self.secs == other.secs && self.nanos > other.nanos)
    }
}

/// A time that chrono accepts comes back unchanged from its wire form.
pub proof fn lemma_time_round_trip(time: DateTime)
    requires
        timestamp_valid(time.secs, time.nanos),
        time.nanos < 2_000_000_000,
    ensures
        spec_into_chrono(spec_into_prost(time)) == time,
{
}

} // verus!
