//! Lengths of time and the system clock.
use vstd::prelude::*;

verus! {

/// Nanoseconds in a second.
pub const NANOS_PER_SEC: u32 = 1_000_000_000;

/// A length of time: whole seconds and the nanoseconds beyond them.
#[derive(Debug, Clone, Copy)]
pub struct Duration {
    secs: u64,
    nanos: u32,
}

impl View for Duration {
    type V = nat;

    /// The length in nanoseconds.
    closed spec fn view(&self) -> nat {
        self.secs as nat * NANOS_PER_SEC as nat + self.nanos as nat
    }
}

impl Duration {
    #[verifier::type_invariant]
    spec fn normal(self) -> bool {
        self.nanos < NANOS_PER_SEC
    }

    /// `secs` seconds and `nanos` nanoseconds.
    pub fn new(secs: u64, nanos: u32) -> (r: Duration)
        requires
            nanos < NANOS_PER_SEC,
        ensures
            r@ == secs * NANOS_PER_SEC + nanos,
    {
        Duration { secs, nanos }
    }

    /// `secs` seconds.
    pub fn from_secs(secs: u64) -> (r: Duration)
        ensures
            r@ == secs * NANOS_PER_SEC,
    {
        Duration { secs, nanos: 0 }
    }

    /// `millis` thousandths of a second.
    pub fn from_millis(millis: u64) -> (r: Duration)
        ensures
            r@ == millis * 1_000_000,
    {
        Duration { secs: millis / 1000, nanos: (millis % 1000) as u32 * 1_000_000 }
    }

    /// The whole seconds in this length.
    pub fn as_secs(&self) -> (r: u64)
        ensures
            r == self@ / NANOS_PER_SEC as nat,
    {
        proof {
            use_type_invariant(self);
            vstd::arithmetic::div_mod::lemma_fundamental_div_mod_converse(
                self@ as int,
                NANOS_PER_SEC as int,
                self.secs as int,
                self.nanos as int,
            );
        }
        self.secs
    }

    /// The nanoseconds beyond the whole seconds.
    pub fn subsec_nanos(&self) -> (r: u32)
        ensures
            r == self@ % NANOS_PER_SEC as nat,
    {
        proof {
            use_type_invariant(self);
            vstd::arithmetic::div_mod::lemma_fundamental_div_mod_converse(
                self@ as int,
                NANOS_PER_SEC as int,
                self.secs as int,
                self.nanos as int,
            );
        }
        self.nanos
    }

    /// Whether this is no time at all.
    pub fn is_zero(&self) -> (r: bool)
        ensures
            r == (self@ == 0),
    {
        self.secs == 0 && self.nanos == 0
    }

    /// Whether this is no longer than `other`.
    pub fn at_most(&self, other: &Duration) -> (r: bool)
        ensures
            r == (self@ <= other@),
    {
        proof {
            use_type_invariant(self);
            use_type_invariant(other);
        }
        self.secs < other.secs || (self.secs == other.secs && self.nanos <= other.nanos)
    }

    /// The shorter of the two.
    pub fn min(self, other: Duration) -> (r: Duration)
        ensures
            r == if self@ <= other@ {
                self
            } else {
                other
            },
    {
        if self.at_most(&other) {
            self
        } else {
            other
        }
    }
}

/// How long to sleep at most: until the transport's timer runs out, where it has one, and no
/// longer than the keepalive period.
pub open spec fn sleep_length(quic: Option<Duration>, keepalive: Duration) -> Duration {
    match quic {
        Some(d) => if d@ <= keepalive@ {
            d
        } else {
            keepalive
        },
        None => keepalive,
    }
}

/// How long to sleep at most: until the transport's timer runs out, where it has one, and no
/// longer than the keepalive period.
pub fn sleep_at_most(quic: Option<Duration>, keepalive: Duration) -> (r: Duration)
    ensures
        r == sleep_length(quic, keepalive),
{
    match quic {
        Some(d) => d.min(keepalive),
        None => keepalive,
    }
}

/// A reading of the system clock in UTC, as a calendar date and as seconds since 1970.
#[derive(Debug, Clone, Copy)]
pub struct UtcTime {
    pub year: i32,
    pub month: u8,
    pub day: u8,
    pub hour: u8,
    pub minute: u8,
    pub second: u8,
    pub millisecond: u16,
    pub unix_seconds: i64,
}

impl UtcTime {
    /// Every field is within the range of its calendar unit.
    pub open spec fn in_range(self) -> bool {
        &&& -9_999 <= self.year <= 9_999
        &&& 1 <= self.month <= 12
        &&& 1 <= self.day <= 31
        &&& self.hour < 24
        &&& self.minute < 60
        &&& self.second < 60
        &&& self.millisecond < 1_000
        &&& EARLIEST_UNIX_SECOND <= self.unix_seconds <= LATEST_UNIX_SECOND
    }
}

/// The first second of the year -9999.
pub const EARLIEST_UNIX_SECOND: i64 = -377_705_116_800;

/// The last second of the year 9999.
pub const LATEST_UNIX_SECOND: i64 = 253_402_300_799;

/// Reads the clock with `time::OffsetDateTime::now_utc`.
///
/// Trusted: each component is within its range. Which moment it is depends on the machine, so
/// nothing else is claimed.
#[verifier::external_body]
pub(crate) fn utc_now() -> (r: UtcTime)
    ensures
        r.in_range(),
{
    let now = time::OffsetDateTime::now_utc();
    UtcTime {
        year: now.year(),
        month: u8::from(now.month()),
        day: now.day(),
        hour: now.hour(),
        minute: now.minute(),
        second: now.second(),
        millisecond: now.millisecond(),
        unix_seconds: now.unix_timestamp(),
    }
}

} // verus!
