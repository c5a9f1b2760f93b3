use vstd::prelude::*;
use vstd::wrapping::i32_specs;

verus! {

/// A span of time in microseconds. Sums and differences wrap at the `i32`
/// range.
#[derive(Clone, Copy, PartialEq, Eq, Structural, PartialOrd, Debug)]
pub struct Duration {
    pub ticks: i32,
}

impl Duration {
    pub fn new(ticks: i32) -> (r: Self)
        ensures
            r.ticks == ticks,
    {
        Self { ticks }
    }

    pub fn from_usec(usec: i32) -> (r: Self)
        ensures
            r.ticks == usec,
    {
        Self::new(usec)
    }

    pub fn from_msec(msec: i32) -> (r: Self)
        requires
            i32::MIN <= msec * 1000 <= i32::MAX,
        ensures
            r.ticks == msec * 1000,
    {
        Self::new(msec * 1000)
    }

    pub fn zero() -> (r: Self)
        ensures
            r.ticks == 0,
    {
        Self { ticks: 0 }
    }

    pub fn usec(self) -> (r: i32)
        ensures
            r == self.ticks,
    {
        self.ticks
    }

    /// Whole milliseconds, rounded toward zero.
    pub fn msec(self) -> (r: i32)
        ensures
            r == crate::trig::tdiv(self.ticks as int, 1000),
    {
        if self.ticks >= 0 {
            self.ticks / 1000
        } else {
            -((-(self.ticks as i64)) / 1000) as i32
        }
    }

    /// Whole seconds, rounded toward zero.
    pub fn sec(self) -> (r: i32)
        ensures
            r == crate::trig::tdiv(self.ticks as int, 1000000),
    {
        if self.ticks >= 0 {
            self.ticks / 1000000
        } else {
            -((-(self.ticks as i64)) / 1000000) as i32
        }
    }
}

impl core::ops::Add for Duration {
    type Output = Self;

    /// The sum, wrapping.
    fn add(self, other: Self) -> (r: Self)
        ensures
            r.ticks == i32_specs::wrapping_add(self.ticks, other.ticks),
    {
        Duration::new(self.ticks.wrapping_add(other.ticks))
    }
}

impl vstd::std_specs::ops::AddSpecImpl for Duration {
    open spec fn obeys_add_spec() -> bool {
        true
    }

    open spec fn add_req(self, rhs: Duration) -> bool {
        true
    }

    open spec fn add_spec(self, rhs: Duration) -> Duration {
        Duration { ticks: i32_specs::wrapping_add(self.ticks, rhs.ticks) }
    }
}

impl core::ops::Sub for Duration {
    type Output = Self;

    /// The difference, wrapping.
    fn sub(self, other: Self) -> (r: Self)
        ensures
            r.ticks == i32_specs::wrapping_sub(self.ticks, other.ticks),
    {
        Duration::new(self.ticks.wrapping_sub(other.ticks))
    }
}

impl vstd::std_specs::ops::SubSpecImpl for Duration {
    open spec fn obeys_sub_spec() -> bool {
        true
    }

    open spec fn sub_req(self, rhs: Duration) -> bool {
        true
    }

    open spec fn sub_spec(self, rhs: Duration) -> Duration {
        Duration { ticks: i32_specs::wrapping_sub(self.ticks, rhs.ticks) }
    }
}

impl core::ops::AddAssign for Duration {
    fn add_assign(&mut self, other: Self)
        ensures
            final(self).ticks == i32_specs::wrapping_add(old(self).ticks, other.ticks),
    {
        self.ticks = self.ticks.wrapping_add(other.ticks);
    }
}

impl core::ops::SubAssign for Duration {
    fn sub_assign(&mut self, other: Self)
        ensures
            final(self).ticks == i32_specs::wrapping_sub(old(self).ticks, other.ticks),
    {
        self.ticks = self.ticks.wrapping_sub(other.ticks);
    }
}

/// Shortest span between two reads of the clock.
pub const MIN_READ_INTERVAL_USEC: i32 = 800;

/// The time elapsed between two clock readings, in `i32` microseconds.
pub open spec fn elapsed(previous: u64, current: u64) -> i32 {
    (current - previous) as i32
}

/// The loop's clock: the last reading of a microsecond counter, the span
/// since the reading before it, and the span since the last reset.
pub struct Time {
    pub ticks: u64,
    pub duration_from_last_read: Duration,
    pub duration_from_last_reset: Duration,
}

impl Time {
    /// A clock whose last reading is `now`.
    pub fn new(now: u64) -> (r: Self)
        ensures
            r.ticks == now,
            r.duration_from_last_read.ticks == 0,
            r.duration_from_last_reset.ticks == 0,
    {
        Self {
            ticks: now,
            duration_from_last_read: Duration::zero(),
            duration_from_last_reset: Duration::zero(),
        }
    }

    /// The span from the last reading to `current`.
    pub fn duration_to(&self, current: u64) -> (r: Duration)
        requires
            current >= self.ticks,
        ensures
            r.ticks == elapsed(self.ticks, current),
    {
        #[verifier::truncate]
        let delta = (current - self.ticks) as i32;
        Duration::new(delta)
    }

    /// Takes the counter reading `current`. A reading less than
    /// `MIN_READ_INTERVAL_USEC` after the last one is declined, and the
    /// caller reads the counter again; otherwise the clock advances.
    pub fn advance(&mut self, current: u64) -> (r: bool)
        requires
            current >= old(self).ticks,
        ensures
            r == (elapsed(old(self).ticks, current) >= MIN_READ_INTERVAL_USEC),
            r ==> final(self).ticks == current && final(self).duration_from_last_read.ticks
                == elapsed(old(self).ticks, current) && final(self).duration_from_last_reset.ticks
                == i32_specs::wrapping_add(
                old(self).duration_from_last_reset.ticks,
                elapsed(old(self).ticks, current),
            ),
            !r ==> *final(self) == *old(self),
    {
        let delta = self.duration_to(current);
        if delta.usec() < MIN_READ_INTERVAL_USEC {
            return false;
        }
        self.ticks = current;
        self.duration_from_last_read = delta;
        self.duration_from_last_reset = self.duration_from_last_reset + delta;
        true
    }

    /// Starts the span since reset again.
    pub fn reset(&mut self)
        ensures
            final(self).duration_from_last_reset.ticks == 0,
            final(self).ticks == old(self).ticks,
            final(self).duration_from_last_read == old(self).duration_from_last_read,
    {
        self.duration_from_last_reset = Duration::zero();
    }

    pub fn from_last_read(&self) -> (r: Duration)
        ensures
            r == self.duration_from_last_read,
    {
        self.duration_from_last_read
    }

    pub fn from_last_reset(&self) -> (r: Duration)
        ensures
            r == self.duration_from_last_reset,
    {
        self.duration_from_last_reset
    }
}

} // verus!
