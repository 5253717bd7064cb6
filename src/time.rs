//! Instants and durations on the transceiver's 40-bit clock, which wraps
//! around to zero after `TIME_MAX`.
use vstd::prelude::*;

verus! {

/// The largest value of the 40-bit system clock.
pub const TIME_MAX: u64 = 0xff_ffff_ffff;

/// Forward time from `earlier` to `later` on a clock that wraps after
/// `TIME_MAX`.
pub open spec fn forward_duration(earlier: int, later: int) -> int {
    if later >= earlier {
        later - earlier
    } else {
        TIME_MAX + 1 - earlier + later
    }
}

/// Determines the duration between two 40-bit time stamps, taking a
/// wraparound of the clock into account.
pub fn duration_between(earlier: u64, later: u64) -> (r: u64)
    requires
        earlier <= TIME_MAX,
        later <= TIME_MAX,
    ensures
        later >= earlier ==> r == later - earlier,
        later < earlier ==> r == TIME_MAX + 1 - earlier + later,
        r <= TIME_MAX,
        r == forward_duration(earlier as int, later as int),
{
    if later >= earlier {
        later - earlier
    } else {
        TIME_MAX - earlier + later + 1
    }
}


/// A reading of the 40-bit system clock.
#[derive(Clone, Copy, Debug, PartialEq, Eq, Structural)]
pub struct Instant(u64);

/// A forward interval on the 40-bit system clock.
#[derive(Clone, Copy, Debug, PartialEq, Eq, Structural)]
pub struct Duration(u64);

impl View for Instant {
    type V = u64;

    closed spec fn view(&self) -> u64 {
        self.0
    }
}

impl View for Duration {
    type V = u64;

    closed spec fn view(&self) -> u64 {
        self.0
    }
}

/// `a + b`, wrapped around on the 40-bit clock.
pub open spec fn wrapping_sum(a: int, b: int) -> int {
    (a + b) % (TIME_MAX + 1)
}

impl Instant {
    #[verifier::type_invariant]
    spec fn fits(self) -> bool {
        self.0 <= TIME_MAX
    }

    /// Two instants that read the same are the same.
    pub proof fn lemma_view_eq(self, other: Instant)
        requires
            self@ == other@,
        ensures
            self == other,
    {
    }

    /// Creates an instant from a clock reading, or `None` where the value
    /// does not fit in 40 bits.
    pub fn new(value: u64) -> (r: Option<Instant>)
        ensures
            r is Some <==> value <= TIME_MAX,
            r matches Some(i) ==> i@ == value,
    {
        if value <= TIME_MAX {
            Some(Instant(value))
        } else {
            None
        }
    }

    /// The clock reading.
    pub fn value(&self) -> (r: u64)
        ensures
            r == self@,
            r <= TIME_MAX,
    {
        proof {
            use_type_invariant(self);
        }
        self.0
    }

    /// The forward duration from `earlier` to this instant.
    pub fn duration_since(&self, earlier: Instant) -> (r: Duration)
        ensures
            r@ == forward_duration(earlier@ as int, self@ as int),
    {
        proof {
            use_type_invariant(self);
            use_type_invariant(&earlier);
        }
        Duration(duration_between(earlier.0, self.0))
    }

    /// The instant `d` after this one, wrapped around on the 40-bit clock.
    pub fn wrapping_add(&self, d: Duration) -> (r: Instant)
        ensures
            r@ == wrapping_sum(self@ as int, d@ as int),
    {
        proof {
            use_type_invariant(self);
            use_type_invariant(&d);
        }
        Instant((self.0 + d.0) % (TIME_MAX + 1))
    }
}

impl Duration {
    #[verifier::type_invariant]
    spec fn fits(self) -> bool {
        self.0 <= TIME_MAX
    }

    /// Two durations of the same length are the same.
    pub proof fn lemma_view_eq(self, other: Duration)
        requires
            self@ == other@,
        ensures
            self == other,
    {
    }

    /// Creates a duration from a number of clock ticks, or `None` where the
    /// value does not fit in 40 bits.
    pub fn new(value: u64) -> (r: Option<Duration>)
        ensures
            r is Some <==> value <= TIME_MAX,
            r matches Some(d) ==> d@ == value,
    {
        if value <= TIME_MAX {
            Some(Duration(value))
        } else {
            None
        }
    }

    /// Creates a duration from a 32-bit number of clock ticks.
    pub fn from_ticks(value: u32) -> (r: Duration)
        ensures
            r@ == value,
    {
        Duration(value as u64)
    }

    /// The number of clock ticks.
    pub fn value(&self) -> (r: u64)
        ensures
            r == self@,
            r <= TIME_MAX,
    {
        proof {
            use_type_invariant(self);
        }
        self.0
    }
}

/// The instant `delay` clock ticks after `now`, wrapped around on the 40-bit
/// clock: the time at which a delayed transmission is scheduled.
pub fn time_from_delay(now: Instant, delay: u32) -> (r: Instant)
    ensures
        r@ == wrapping_sum(now@ as int, delay as int),
{
    now.wrapping_add(Duration::from_ticks(delay))
}

} // verus!
