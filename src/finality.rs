//! The policy that paces the polling for an update call's finality: a
//! capped exponential backoff that never sleeps less than the throttle,
//! never sleeps past the deadline unless what is left is below the
//! throttle, and gives up once the total wait reaches the timeout.
use vstd::prelude::*;

verus! {

/// The throttle of the standard policy, in milliseconds.
pub const STANDARD_THROTTLE_MS: u64 = 500;

/// The total wait of the standard policy, in milliseconds.
pub const STANDARD_TIMEOUT_MS: u64 = 300_000;

/// The longest single sleep of the standard policy, in milliseconds.
pub const STANDARD_MAX_DELAY_MS: u64 = 8_000;

/// What to do after a poll that brought no definitive reply.
#[derive(Clone, Copy, Debug, PartialEq, Eq, Structural)]
pub enum WaitStep {
    /// Sleep this many milliseconds, then poll again.
    Sleep(u64),
    /// The deadline has passed: stop waiting.
    TimedOut,
}

/// The state of the wait for finality.
#[derive(Clone, Copy, Debug, PartialEq, Eq, Structural)]
pub struct FinalityWait {
    pub throttle_ms: u64,
    pub timeout_ms: u64,
    pub max_delay_ms: u64,
    pub next_delay_ms: u64,
    pub sleeps: u64,
}

/// The sleep taken at `elapsed_ms`: the backoff's delay, cut down to what
/// is left before the deadline, but never below the throttle.
pub open spec fn sleep_spec(w: FinalityWait, elapsed_ms: u64) -> u64 {
    let left = (w.timeout_ms - elapsed_ms) as u64;
    let floor = if left >= w.throttle_ms { left } else { w.throttle_ms };
    if w.next_delay_ms <= floor { w.next_delay_ms } else { floor }
}

/// The delay that follows `delay` in the backoff: doubled, up to `cap`.
pub open spec fn backoff(delay: nat, cap: nat) -> nat {
    if 2 * delay <= cap { 2 * delay } else { cap }
}

impl FinalityWait {
    pub open spec fn wf(&self) -> bool {
        &&& 0 < self.throttle_ms
        &&& self.throttle_ms <= self.max_delay_ms
        &&& self.throttle_ms <= self.next_delay_ms <= self.max_delay_ms
    }

    /// A fresh wait: the first sleep is the throttle, none taken yet.
    pub open spec fn fresh(&self, throttle_ms: u64, timeout_ms: u64, max_delay_ms: u64) -> bool {
        &&& self.throttle_ms == throttle_ms
        &&& self.timeout_ms == timeout_ms
        &&& self.max_delay_ms == max_delay_ms
        &&& self.next_delay_ms == throttle_ms
        &&& self.sleeps == 0
    }

    /// What a step at `elapsed_ms` since the wait began decides.
    pub open spec fn step_spec(&self, elapsed_ms: u64) -> WaitStep {
        if elapsed_ms >= self.timeout_ms {
            WaitStep::TimedOut
        } else {
            WaitStep::Sleep(sleep_spec(*self, elapsed_ms))
        }
    }

    /// The state after a step at `elapsed_ms`.
    pub open spec fn after_step(&self, elapsed_ms: u64) -> FinalityWait {
        if elapsed_ms >= self.timeout_ms {
            *self
        } else {
            FinalityWait {
                next_delay_ms: backoff(self.next_delay_ms as nat, self.max_delay_ms as nat) as u64,
                sleeps: if self.sleeps < u64::MAX { (self.sleeps + 1) as u64 } else { self.sleeps },
                ..*self
            }
        }
    }

    pub fn new(throttle_ms: u64, timeout_ms: u64, max_delay_ms: u64) -> (r: FinalityWait)
        requires
            0 < throttle_ms <= max_delay_ms,
        ensures
            r.wf(),
            r.fresh(throttle_ms, timeout_ms, max_delay_ms),
    {
        FinalityWait { throttle_ms, timeout_ms, max_delay_ms, next_delay_ms: throttle_ms, sleeps: 0 }
    }

    /// The policy the minter uses: a 500 ms throttle and a 300 s deadline.
    pub fn standard() -> (r: FinalityWait)
        ensures
            r.wf(),
            r.fresh(STANDARD_THROTTLE_MS, STANDARD_TIMEOUT_MS, STANDARD_MAX_DELAY_MS),
    {
        FinalityWait::new(STANDARD_THROTTLE_MS, STANDARD_TIMEOUT_MS, STANDARD_MAX_DELAY_MS)
    }

    /// Starts the wait over, as when the replica has accepted the request.
    pub fn restart(&mut self)
        requires
            old(self).wf(),
        ensures
            final(self).wf(),
            final(self).fresh(old(self).throttle_ms, old(self).timeout_ms, old(self).max_delay_ms),
    {
        self.next_delay_ms = self.throttle_ms;
        self.sleeps = 0;
    }

    /// Decides, after a poll with no definitive reply, whether to sleep and
    /// poll again or to give up, given the time since the wait began.
    pub fn next_step(&mut self, elapsed_ms: u64) -> (r: WaitStep)
        requires
            old(self).wf(),
        ensures
            r == old(self).step_spec(elapsed_ms),
            *final(self) == old(self).after_step(elapsed_ms),
            final(self).wf(),
            r is TimedOut <==> elapsed_ms >= old(self).timeout_ms,
            r matches WaitStep::Sleep(d) ==> old(self).throttle_ms <= d <= old(self).max_delay_ms
                && (elapsed_ms + d <= old(self).timeout_ms || d == old(self).throttle_ms),
    {
        if elapsed_ms >= self.timeout_ms {
            return WaitStep::TimedOut;
        }
        let left = self.timeout_ms - elapsed_ms;
        let floor = if left >= self.throttle_ms { left } else { self.throttle_ms };
        let delay = if self.next_delay_ms <= floor { self.next_delay_ms } else { floor };
        self.next_delay_ms = if self.next_delay_ms <= self.max_delay_ms / 2 {
            self.next_delay_ms * 2
        } else {
            self.max_delay_ms
        };
        if self.sleeps < u64::MAX {
            self.sleeps = self.sleeps + 1;
        }
        WaitStep::Sleep(delay)
    }
}

} // verus!
