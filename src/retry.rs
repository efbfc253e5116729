use vstd::prelude::*;

verus! {

/// What the caller driving a request does next.
#[derive(Debug, Clone, Copy, PartialEq, Eq, Structural)]
pub enum Step {
    /// Send the request (again), unchanged.
    Send,
    /// A response arrived: hand it over, whatever its HTTP status.
    Deliver,
    /// Every allowed attempt failed in transport: surface the last error.
    GiveUp,
}

/// The step after attempt number `attempts` (counted from 1) ended,
/// received or not, under a bound of `max` attempts.
pub open spec fn step_after(max: nat, attempts: nat, received: bool) -> Step {
    if received {
        Step::Deliver
    } else if attempts < max {
        Step::Send
    } else {
        Step::GiveUp
    }
}

/// How many attempts are made, `done` of them already failed, when every
/// attempt fails in transport.
pub open spec fn attempts_all_failing(max: nat, done: nat) -> nat
    decreases max - done,
{
    if done >= max {
        done
    } else {
        let next = done + 1;
        if step_after(max, next, false) == Step::Send {
            attempts_all_failing(max, next)
        } else {
            next
        }
    }
}

/// The retry bookkeeping of one logical request: each transport failure
/// is retried, without delay, until `max_attempts` attempts were made.
#[derive(Debug, Clone, Copy, PartialEq, Eq, Structural)]
pub struct RetryState {
    pub max_attempts: u8,
    pub attempts: u8,
}

impl RetryState {
    pub open spec fn wf(&self) -> bool {
        1 <= self.max_attempts && self.attempts <= self.max_attempts
    }

    /// A request that has not been sent yet, allowed `max_attempts` attempts.
    pub fn new(max_attempts: u8) -> (r: RetryState)
        requires
            max_attempts >= 1,
        ensures
            r.wf(),
            r.max_attempts == max_attempts,
            r.attempts == 0,
    {
        RetryState { max_attempts, attempts: 0 }
    }

    /// The first step of a fresh request: always to send it.
    pub fn start(&self) -> (r: Step)
        requires
            self.wf(),
            self.attempts == 0,
        ensures
            r == Step::Send,
    {
        Step::Send
    }

    /// Records how the attempt just sent ended and says what to do next.
    pub fn record(&mut self, received: bool) -> (r: Step)
        requires
            old(self).wf(),
            old(self).attempts < old(self).max_attempts,
        ensures
            final(self).wf(),
            final(self).max_attempts == old(self).max_attempts,
            final(self).attempts == old(self).attempts + 1,
            r == step_after(old(self).max_attempts as nat, final(self).attempts as nat, received),
            r == Step::Send ==> final(self).attempts < final(self).max_attempts,
    {
        self.attempts = self.attempts + 1;
        if received {
            Step::Deliver
        } else if self.attempts < self.max_attempts {
            Step::Send
        } else {
            Step::GiveUp
        }
    }
}

/// When every attempt fails in transport, exactly `max` attempts are made
/// before giving up: no fewer, and not one more.
pub proof fn lemma_attempts_exact(max: nat)
    requires
        max >= 1,
    ensures
        attempts_all_failing(max, 0) == max,
        forall|k: nat| 1 <= k < max ==> step_after(max, k, false) == Step::Send,
        step_after(max, max, false) == Step::GiveUp,
{
    lemma_attempts_from(max, 0);
}

proof fn lemma_attempts_from(max: nat, done: nat)
    requires
        done < max,
    ensures
        attempts_all_failing(max, done) == max,
    decreases max - done,
{
    if done + 1 < max {
        lemma_attempts_from(max, done + 1);
    }
}

} // verus!
