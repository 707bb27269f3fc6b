use vstd::prelude::*;

verus! {

/// How many admissions are allowed per window, e.g. 3 items per second.
#[derive(Copy, Clone, Debug)]
pub struct ThrottleRate {
    count: usize,
    duration: u64,
}

impl ThrottleRate {
    /// The number of admissions per window, as a specification value.
    pub closed spec fn spec_count(&self) -> usize {
        self.count
    }

    /// The length of the window in nanoseconds, as a specification value.
    pub closed spec fn spec_duration(&self) -> u64 {
        self.duration
    }

    #[verifier::type_invariant]
    spec fn positive(&self) -> bool {
        self.count > 0 && self.duration > 0
    }

    /// A rate of `count` admissions per `duration` nanoseconds.
    ///
    /// Both must be positive: a rate of nothing, or over no time, is not a rate.
    pub fn new(count: usize, duration: u64) -> (rate: Self)
        requires
            count > 0,
            duration > 0,
        ensures
            rate.spec_count() == count,
            rate.spec_duration() == duration,
    {
        Self { count, duration }
    }

    /// The number of admissions per window; never zero.
    pub fn count(&self) -> (count: usize)
        ensures
            count == self.spec_count(),
            count > 0,
    {
        proof {
            use_type_invariant(self);
        }
        self.count
    }

    /// The length of the window in nanoseconds; never zero.
    pub fn duration(&self) -> (duration: u64)
        ensures
            duration == self.spec_duration(),
            duration > 0,
    {
        proof {
            use_type_invariant(self);
        }
        self.duration
    }
}

} // verus!
