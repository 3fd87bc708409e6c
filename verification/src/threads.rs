use vstd::prelude::*;

verus! {

/// What one poll of a `YieldOnce` decides.
#[derive(Clone, Copy, Debug, PartialEq, Eq, Structural)]
pub enum PollOutcome {
    Ready,
    Pending,
}

/// A future that suspends exactly once: its first poll reports pending
/// (and asks the executor for one wake-up), every later poll is ready.
pub struct YieldOnce {
    yielded: bool,
}

/// A fresh `YieldOnce` that has not yielded yet.
pub fn yield_once() -> (y: YieldOnce)
    ensures
        !y.yielded_spec(),
{
    YieldOnce { yielded: false }
}

impl YieldOnce {
    pub closed spec fn yielded_spec(self) -> bool {
        self.yielded
    }

    /// One poll step: pending on the first call, ready ever after. The
    /// wake-up the first call schedules is the executor's work.
    pub fn poll(&mut self) -> (r: PollOutcome)
        ensures
            old(self).yielded_spec() ==> r == PollOutcome::Ready && *final(self) == *old(self),
            !old(self).yielded_spec() ==> r == PollOutcome::Pending && final(self).yielded_spec(),
    {
        if self.yielded {
            PollOutcome::Ready
        } else {
            self.yielded = true;
            PollOutcome::Pending
        }
    }
}

} // verus!
