//! Spans of time and instants, in nanoseconds.
//!
//! Instants are nanoseconds since the Unix epoch, UTC, held in an `i128`.
//! Signed spans of time follow `chrono::TimeDelta`, whose range is
//! plus or minus `i64::MAX` milliseconds.
use vstd::arithmetic::power2::{pow2, lemma2_to64};
use vstd::prelude::*;

verus! {

pub const NANOS_PER_SEC: i128 = 1_000_000_000;

pub const NANOS_PER_MINUTE: i128 = 60_000_000_000;

/// The largest span `chrono::TimeDelta` holds: `i64::MAX` milliseconds, in nanoseconds.
pub const MAX_DELTA_NANOS: i128 = 9_223_372_036_854_775_807_000_000;

/// The bound on the magnitude of the instants that the library works with
/// (far beyond the range of `chrono::DateTime`).
pub const MAX_INSTANT_NANOS: i128 = 1_000_000_000_000_000_000_000_000_000;

/// An instant that the library can compute with.
pub open spec fn valid_instant(t: int) -> bool {
    -MAX_INSTANT_NANOS <= t <= MAX_INSTANT_NANOS
}

/// A span that `chrono::TimeDelta` can hold.
pub open spec fn valid_delta(d: int) -> bool {
    -MAX_DELTA_NANOS <= d <= MAX_DELTA_NANOS
}

/// The whole seconds of a span, rounded toward zero (`chrono::TimeDelta::num_seconds`).
pub open spec fn num_seconds_spec(d: int) -> int {
    if d >= 0 {
        d / (NANOS_PER_SEC as int)
    } else {
        -((-d) / (NANOS_PER_SEC as int))
    }
}

/// `chrono::TimeDelta::num_seconds` on a span given in nanoseconds.
pub fn num_seconds(d: i128) -> (s: i128)
    ensures
        s as int == num_seconds_spec(d as int),
{
    if d >= 0 {
        d / NANOS_PER_SEC
    } else if d == i128::MIN {
        -(i128::MAX / NANOS_PER_SEC)
    } else {
        let p: i128 = -d;
        let q: i128 = p / NANOS_PER_SEC;
        -q
    }
}

/// A non-negative span of time, as `std::time::Duration` holds it:
/// whole seconds and the nanoseconds below one second.
#[derive(Clone, Copy, Debug)]
pub struct StdDuration {
    secs: u64,
    nanos: u32,
}

impl StdDuration {
    #[verifier::type_invariant]
    spec fn inv(self) -> bool {
        self.nanos < 1_000_000_000
    }

    /// The span in nanoseconds.
    pub closed spec fn total_nanos(self) -> nat {
        (self.secs * 1_000_000_000 + self.nanos) as nat
    }

    pub closed spec fn secs_spec(self) -> u64 {
        self.secs
    }

    pub closed spec fn subsec_nanos_spec(self) -> u32 {
        self.nanos
    }

    pub fn from_secs(secs: u64) -> (d: StdDuration)
        ensures
            d.total_nanos() == secs * 1_000_000_000,
            d.secs_spec() == secs,
            d.subsec_nanos_spec() == 0,
    {
        StdDuration { secs, nanos: 0 }
    }

    pub fn from_millis(millis: u64) -> (d: StdDuration)
        ensures
            d.total_nanos() == millis * 1_000_000,
            d.secs_spec() == millis / 1000,
            d.subsec_nanos_spec() == (millis % 1000) * 1_000_000,
    {
        let secs = millis / 1000;
        let rest = millis % 1000;
        assert(rest * 1_000_000 < 1_000_000_000) by (nonlinear_arith)
            requires
                rest < 1000,
        ;
        let nanos = (rest * 1_000_000) as u32;
        assert(secs * 1_000_000_000 + rest * 1_000_000 == millis * 1_000_000) by (nonlinear_arith)
            requires
                secs == millis / 1000,
                rest == millis % 1000,
        ;
        StdDuration { secs, nanos }
    }

    /// `std::time::Duration::new`: the nanoseconds beyond one second carry into the seconds.
    pub fn new(secs: u64, nanos: u32) -> (d: StdDuration)
        requires
            secs + nanos / 1_000_000_000 <= u64::MAX,
        ensures
            d.total_nanos() == secs * 1_000_000_000 + nanos,
    {
        let extra = (nanos / 1_000_000_000) as u64;
        let rest = nanos % 1_000_000_000;
        assert((secs + extra) * 1_000_000_000 + rest == secs * 1_000_000_000 + nanos) by (nonlinear_arith)
            requires
                extra == nanos / 1_000_000_000,
                rest == nanos % 1_000_000_000,
        ;
        StdDuration { secs: secs + extra, nanos: rest }
    }

    pub fn as_secs(&self) -> (s: u64)
        ensures
            s == self.secs_spec(),
    {
        self.secs
    }

    pub fn subsec_nanos(&self) -> (n: u32)
        ensures
            n == self.subsec_nanos_spec(),
            n < 1_000_000_000,
    {
        proof {
            use_type_invariant(self);
        }
        self.nanos
    }

    /// The sum of two spans (`Duration + Duration`, which panics where the seconds overflow).
    pub fn plus(&self, other: &StdDuration) -> (d: StdDuration)
        requires
            self.secs_spec() + other.secs_spec()
                + (if self.subsec_nanos_spec() + other.subsec_nanos_spec() >= 1_000_000_000 { 1int } else { 0int })
                <= u64::MAX,
        ensures
            d.total_nanos() == self.total_nanos() + other.total_nanos(),
    {
        proof {
            use_type_invariant(self);
            use_type_invariant(other);
        }
        let nanos: u32 = self.nanos + other.nanos;
        if nanos >= 1_000_000_000 {
            StdDuration { secs: self.secs + other.secs + 1, nanos: nanos - 1_000_000_000 }
        } else {
            StdDuration { secs: self.secs + other.secs, nanos }
        }
    }

    /// The sum of two spans where the seconds do not overflow (`Duration::checked_add`).
    pub fn checked_plus(&self, other: &StdDuration) -> (r: Option<StdDuration>)
        ensures
            r is Some <==> self.secs_spec() + other.secs_spec()
                + (if self.subsec_nanos_spec() + other.subsec_nanos_spec() >= 1_000_000_000 { 1int } else { 0int })
                <= u64::MAX,
            r matches Some(d) ==> d.total_nanos() == self.total_nanos() + other.total_nanos(),
    {
        proof {
            use_type_invariant(self);
            use_type_invariant(other);
        }
        let carry: u64 = if self.nanos + other.nanos >= 1_000_000_000 { 1 } else { 0 };
        if self.secs > u64::MAX - other.secs || self.secs + other.secs > u64::MAX - carry {
            return None;
        }
        Some(self.plus(other))
    }

    /// The span in nanoseconds.
    pub fn as_nanos(&self) -> (n: u128)
        ensures
            n as int == self.total_nanos(),
    {
        self.secs as u128 * 1_000_000_000u128 + self.nanos as u128
    }
}

/// What `chrono::TimeDelta::from_std` gives for a span of the given nanoseconds:
/// the same span where `TimeDelta` can hold it.
pub open spec fn delta_from_std_spec(nanos: nat) -> Option<int> {
    if nanos <= MAX_DELTA_NANOS {
        Some(nanos as int)
    } else {
        None
    }
}

/// `chrono::TimeDelta::from_std`.
pub fn delta_from_std(d: &StdDuration) -> (r: Option<i128>)
    ensures
        r == (match delta_from_std_spec(d.total_nanos()) {
            Some(n) => Some(n as i128),
            None => None::<i128>,
        }),
        r matches Some(n) ==> valid_delta(n as int) && n >= 0,
{
    let n = d.as_nanos();
    if n <= MAX_DELTA_NANOS as u128 {
        Some(n as i128)
    } else {
        None
    }
}

/// What `chrono::TimeDelta::try_minutes` gives: the span of that many minutes,
/// where `TimeDelta` can hold it.
pub open spec fn try_minutes_spec(minutes: int) -> Option<int> {
    if minutes * 60 < i64::MIN || minutes * 60 > i64::MAX {
        None
    } else if minutes * 60 < -(i64::MAX / 1000) - 1 || minutes * 60 > i64::MAX / 1000 {
        None
    } else {
        Some(minutes * 60 * NANOS_PER_SEC)
    }
}

/// `chrono::TimeDelta::try_minutes`.
pub fn try_minutes(minutes: i64) -> (r: Option<i128>)
    ensures
        r == (match try_minutes_spec(minutes as int) {
            Some(n) => Some(n as i128),
            None => None::<i128>,
        }),
{
    let m = minutes as i128;
    let s = m * 60;
    if s < i64::MIN as i128 || s > i64::MAX as i128 {
        None
    } else if s < -(i64::MAX as i128 / 1000) - 1 || s > i64::MAX as i128 / 1000 {
        None
    } else {
        Some(s * NANOS_PER_SEC)
    }
}

/// Whether `chrono::TimeDelta` holds a span of that many minutes (up to `i64::MAX`
/// milliseconds).
pub open spec fn delta_holds_minutes(minutes: int) -> bool {
    minutes * 60 <= i64::MAX / 1000
}

/// The minutes before the next attempt of a job whose current attempt is given:
/// `2^attempt` minutes; where `chrono::TimeDelta` cannot hold that span, one hour.
pub open spec fn backoff_minutes(current_attempt: u32) -> int {
    if delta_holds_minutes(pow2(current_attempt as nat) as int) {
        pow2(current_attempt as nat) as int
    } else {
        60
    }
}

/// The delay before the next attempt of a failed job, in nanoseconds
/// (the default that a database handler inherits).
pub fn next_attempt_at(current_attempt: u32) -> (d: i128)
    ensures
        d as int == backoff_minutes(current_attempt) * NANOS_PER_MINUTE,
{
    proof {
        lemma_backoff_values(current_attempt);
        lemma2_to64();
    }
    if current_attempt >= 48 {
        return 60 * NANOS_PER_MINUTE;
    }
    let mut minutes: i64 = 1;
    let mut i: u32 = 0;
    while i < current_attempt
        invariant
            i <= current_attempt < 48,
            minutes == pow2(i as nat),
        decreases current_attempt - i,
    {
        proof {
            lemma2_to64();
            vstd::arithmetic::power2::lemma2_to64_rest();
            vstd::arithmetic::power2::lemma_pow2_unfold((i + 1) as nat);
            if i + 1 < 47 {
                vstd::arithmetic::power2::lemma_pow2_strictly_increases((i + 1) as nat, 47);
            }
        }
        minutes = minutes * 2;
        i = i + 1;
    }
    match try_minutes(minutes) {
        Some(d) => d,
        None => 60 * NANOS_PER_MINUTE,
    }
}

/// The backoff is at least one minute: `2^attempt` minutes up to attempt 47, the last
/// that `chrono::TimeDelta` holds, and one hour beyond.
pub proof fn lemma_backoff_values(a: u32)
    ensures
        backoff_minutes(a) >= 1,
        a <= 47 ==> backoff_minutes(a) == pow2(a as nat),
        a >= 48 ==> backoff_minutes(a) == 60,
{
    lemma2_to64();
    vstd::arithmetic::power2::lemma2_to64_rest();
    vstd::arithmetic::power2::lemma_pow2_pos(a as nat);
    if a < 47 {
        vstd::arithmetic::power2::lemma_pow2_strictly_increases(a as nat, 47);
    }
    if a > 48 {
        vstd::arithmetic::power2::lemma_pow2_strictly_increases(48, a as nat);
    }
}

} // verus!
