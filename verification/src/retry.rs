use vstd::prelude::*;

verus! {

/// Fixed number of attempts against the local metadata endpoint.
pub const MAX_RETRIES: u32 = 3;

/// Fixed delay between two attempts, in seconds.
pub const RETRY_INTERVAL_SECS: u64 = 2;

/// What the driver must do after an attempt: hand the fetched record out,
/// sleep for the fixed delay and try again, or give up and return the last
/// observed error.
#[derive(Clone, Copy, Debug, PartialEq, Eq, Structural)]
pub enum RetryAction {
    Finish,
    SleepAndRetry,
    GiveUp,
}

/// The decision after one attempt: success ends the fetch at once; a failure
/// is retried until the attempt that exhausts the bound.
pub open spec fn decision(attempts_before: nat, max_attempts: nat, success: bool) -> RetryAction {
    if success {
        RetryAction::Finish
    } else if attempts_before + 1 < max_attempts {
        RetryAction::SleepAndRetry
    } else {
        RetryAction::GiveUp
    }
}

/// Decision state of the bounded-retry fetch: the attempts made so far and
/// whether the fetch already came to an end.
#[derive(Debug)]
pub struct RetryState {
    pub max_attempts: u32,
    pub attempts: u32,
    pub finished: bool,
}

impl RetryState {
    /// The bound is positive, and an unfinished fetch has attempts left.
    pub open spec fn wf(self) -> bool {
        &&& self.max_attempts >= 1
        &&& self.attempts <= self.max_attempts
        &&& !self.finished ==> self.attempts < self.max_attempts
    }

    pub fn new(max_attempts: u32) -> (s: RetryState)
        requires
            max_attempts >= 1,
        ensures
            s.max_attempts == max_attempts,
            s.attempts == 0,
            !s.finished,
            s.wf(),
    {
        RetryState { max_attempts, attempts: 0, finished: false }
    }

    /// Records the outcome of one attempt and decides what follows it.
    pub fn record(&mut self, success: bool) -> (a: RetryAction)
        requires
            old(self).wf(),
            !old(self).finished,
        ensures
            final(self).max_attempts == old(self).max_attempts,
            final(self).attempts == old(self).attempts + 1,
            a == decision(old(self).attempts as nat, old(self).max_attempts as nat, success),
            final(self).finished == (a != RetryAction::SleepAndRetry),
            final(self).wf(),
    {
        self.attempts = self.attempts + 1;
        if success {
            self.finished = true;
            RetryAction::Finish
        } else if self.attempts < self.max_attempts {
            RetryAction::SleepAndRetry
        } else {
            self.finished = true;
            RetryAction::GiveUp
        }
    }
}

/// The state after driving the fetch with the attempt outcomes in `events`
/// (one entry per attempt, `true` for success), paired with the decision of
/// the last attempt performed.
pub open spec fn run(s: RetryState, events: Seq<bool>) -> (RetryState, RetryAction)
    decreases events.len(),
{
    if events.len() == 0 {
        (s, RetryAction::GiveUp)
    } else {
        let a = decision(s.attempts as nat, s.max_attempts as nat, events[0]);
        let s2 = RetryState {
            attempts: (s.attempts + 1) as u32,
            finished: a != RetryAction::SleepAndRetry,
            ..s
        };
        if a == RetryAction::SleepAndRetry {
            run(s2, events.drop_first())
        } else {
            (s2, a)
        }
    }
}

/// When every attempt fails, the fetch performs exactly the remaining
/// `max_attempts - attempts` attempts and ends by giving up, whereupon the
/// driver returns the last observed error.
pub proof fn lemma_retry_exhausts_on_all_failures(s: RetryState, events: Seq<bool>)
    requires
        s.wf(),
        !s.finished,
        events.len() == s.max_attempts - s.attempts,
        forall|i: int| 0 <= i < events.len() ==> !events[i],
    ensures
        run(s, events).0.attempts == s.max_attempts,
        run(s, events).1 == RetryAction::GiveUp,
    decreases events.len(),
{
    if s.attempts + 1 < s.max_attempts {
        let s2 = RetryState {
            attempts: (s.attempts + 1) as u32,
            finished: false,
            ..s
        };
        assert forall|i: int| 0 <= i < events.drop_first().len() implies !events.drop_first()[i]
        by {
            assert(events.drop_first()[i] == events[i + 1]);
        }
        lemma_retry_exhausts_on_all_failures(s2, events.drop_first());
    }
}

/// A successful first attempt ends the fetch at once: a single attempt, no
/// sleep, and the fetched record is handed out.
pub proof fn lemma_retry_stops_on_first_success(s: RetryState, events: Seq<bool>)
    requires
        s.wf(),
        !s.finished,
        events.len() >= 1,
        events[0],
    ensures
        run(s, events).0.attempts == s.attempts + 1,
        run(s, events).1 == RetryAction::Finish,
{
}

} // verus!
