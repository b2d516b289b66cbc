use vstd::prelude::*;

verus! {

/// What the connection-attempt procedure does after a failed attempt.
#[derive(PartialEq, Eq, Structural, Clone, Copy, Debug)]
pub enum AttemptStep {
    /// Sleep this many milliseconds, then try to open a session again.
    Retry { delay_ms: u64 },
    /// The delays are exhausted: the procedure fails with the last error.
    GiveUp,
}

/// The step after failure number `used` (counting from zero) over `delays`:
/// the next unused delay, or giving up once none is left.
pub open spec fn failure_step(delays: Seq<u64>, used: nat) -> AttemptStep {
    if used < delays.len() {
        AttemptStep::Retry { delay_ms: delays[used as int] }
    } else {
        AttemptStep::GiveUp
    }
}

/// The steps answered to `k` failures in a row, from a fresh run.
pub open spec fn steps_for_failures(delays: Seq<u64>, k: nat) -> Seq<AttemptStep> {
    Seq::new(k, |i: int| failure_step(delays, i as nat))
}

/// One run of the connection-attempt procedure over the delays that a retry
/// strategy yielded. The sequence is consumed once: exhaustion is final for
/// this run.
pub struct AttemptRun {
    delays: Vec<u64>,
    used: usize,
    gave_up: bool,
}

impl AttemptRun {
    pub closed spec fn delays(&self) -> Seq<u64> {
        self.delays@
    }

    /// How many delays have been handed out.
    pub closed spec fn used(&self) -> nat {
        self.used as nat
    }

    /// Whether the run has given up: no further attempt is made.
    pub closed spec fn exhausted(&self) -> bool {
        self.gave_up
    }

    /// How many attempts have been reported as failed.
    pub open spec fn failures(&self) -> nat {
        self.used() + if self.exhausted() { 1nat } else { 0nat }
    }

    /// A run gives up only once every delay was handed out.
    pub open spec fn wf(&self) -> bool {
        &&& self.used() <= self.delays().len()
        &&& self.exhausted() ==> self.used() == self.delays().len()
    }

    pub fn new(delays: Vec<u64>) -> (r: Self)
        ensures
            r.wf(),
            r.delays() == delays@,
            r.used() == 0,
            !r.exhausted(),
    {
        AttemptRun { delays, used: 0, gave_up: false }
    }

    /// Records a failed attempt and says what to do next: wait the next delay
    /// and try again, or give up when the delays are exhausted. Must not be
    /// called again once it has given up.
    pub fn on_attempt_failed(&mut self) -> (r: AttemptStep)
        requires
            old(self).wf(),
            !old(self).exhausted(),
        ensures
            final(self).wf(),
            final(self).delays() == old(self).delays(),
            final(self).failures() == old(self).failures() + 1,
            r == failure_step(old(self).delays(), old(self).used()),
            r is Retry ==> final(self).used() == old(self).used() + 1 && !final(self).exhausted(),
            r is GiveUp ==> final(self).used() == old(self).used() && final(self).exhausted(),
    {
        if self.used < self.delays.len() {
            let delay_ms = self.delays[self.used];
            self.used = self.used + 1;
            AttemptStep::Retry { delay_ms }
        } else {
            self.gave_up = true;
            AttemptStep::GiveUp
        }
    }

    /// Whether the run has given up.
    pub fn is_exhausted(&self) -> (r: bool)
        requires
            self.wf(),
        ensures
            r == self.exhausted(),
    {
        self.gave_up
    }
}

/// With `N` delays and every attempt failing, the procedure retries after each
/// of the first `N` failures, waiting the delays in order, and gives up at
/// failure `N + 1`: exactly `N + 1` attempts are made.
pub proof fn lemma_all_attempts_fail(delays: Seq<u64>)
    ensures
        steps_for_failures(delays, delays.len() + 1).len() == delays.len() + 1,
        forall|i: int|
            0 <= i < delays.len() ==> #[trigger] steps_for_failures(delays, delays.len() + 1)[i]
                == (AttemptStep::Retry { delay_ms: delays[i] }),
        steps_for_failures(delays, delays.len() + 1).last() == AttemptStep::GiveUp,
{
}

} // verus!
