//! Startup-readiness detection by polling: a caller that needs to know
//! when a server is accepting connections polls it at a fixed interval
//! until a poll succeeds or a bounded retry budget runs out. A failed poll
//! is "not ready yet", never fatal by itself.

use vstd::prelude::*;

verus! {

/// What one poll tells the caller to do next.
#[derive(Clone, Copy, PartialEq, Eq, Structural, Debug)]
pub enum ProbeDecision {
    /// The server answered: it is ready.
    Ready,
    /// No answer yet; poll again after the interval.
    RetryLater,
    /// No answer and the retry budget is spent: give up.
    TimedOut,
}

/// A readiness probe with a bounded retry budget. The budget, times the
/// poll interval, is the timeout window.
pub struct ReadinessProbe {
    pub attempts_left: u32,
}

/// The decision a probe with `budget` retries left reaches on a sequence
/// of poll results, or nothing if the results run out while it would still
/// be retrying.
pub open spec fn spec_probe_run(budget: nat, results: Seq<bool>) -> Option<ProbeDecision>
    decreases results.len(),
{
    if results.len() == 0 {
        None
    } else if results[0] {
        Some(ProbeDecision::Ready)
    } else if budget == 0 {
        Some(ProbeDecision::TimedOut)
    } else {
        spec_probe_run((budget - 1) as nat, results.drop_first())
    }
}

impl ReadinessProbe {
    /// A probe that will tolerate up to `max_retries` failed polls before
    /// giving up.
    pub fn new(max_retries: u32) -> (p: ReadinessProbe)
        ensures
            p.attempts_left == max_retries,
    {
        ReadinessProbe { attempts_left: max_retries }
    }

    /// Takes the result of one poll. A reachable server is ready at once,
    /// however many polls failed before; an unreachable one costs a retry,
    /// and only a spent budget turns the failure into a timeout.
    pub fn on_poll(&mut self, reachable: bool) -> (d: ProbeDecision)
        ensures
            reachable ==> d == ProbeDecision::Ready
                && final(self).attempts_left == old(self).attempts_left,
            !reachable && old(self).attempts_left == 0 ==> d == ProbeDecision::TimedOut
                && final(self).attempts_left == 0,
            !reachable && old(self).attempts_left > 0 ==> d == ProbeDecision::RetryLater
                && final(self).attempts_left == old(self).attempts_left - 1,
    {
        if reachable {
            ProbeDecision::Ready
        } else if self.attempts_left == 0 {
            ProbeDecision::TimedOut
        } else {
            self.attempts_left = self.attempts_left - 1;
            ProbeDecision::RetryLater
        }
    }
}

/// Readiness detection is bounded: on any sequence of more polls than the
/// budget allows retries, the probe reaches a decision — it never polls
/// past its timeout window.
pub proof fn lemma_probe_decides(budget: nat, results: Seq<bool>)
    requires
        results.len() > budget,
    ensures
        spec_probe_run(budget, results) is Some,
    decreases results.len(),
{
    if results[0] {
    } else if budget == 0 {
    } else {
        lemma_probe_decides((budget - 1) as nat, results.drop_first());
    }
}

/// Transient failures are tolerated: if some poll within the budget
/// succeeds, the probe reports ready at the first success, whatever came
/// before it.
pub proof fn lemma_probe_tolerates_transient_failures(budget: nat, results: Seq<bool>, k: int)
    requires
        0 <= k <= budget,
        k < results.len(),
        results[k],
        forall|j: int| 0 <= j < k ==> !results[j],
    ensures
        spec_probe_run(budget, results) == Some(ProbeDecision::Ready),
    decreases k,
{
    if k == 0 {
    } else {
        assert(!results[0]);
        assert(results.drop_first()[k - 1]);
        assert(forall|j: int| 0 <= j < k - 1 ==> !results.drop_first()[j]);
        lemma_probe_tolerates_transient_failures((budget - 1) as nat, results.drop_first(), k - 1);
    }
}

/// A server that never answers is reported as timed out, not as ready:
/// on all-failed polls past the budget the decision is a timeout.
pub proof fn lemma_probe_times_out(budget: nat, results: Seq<bool>)
    requires
        results.len() > budget,
        forall|j: int| 0 <= j < results.len() ==> !results[j],
    ensures
        spec_probe_run(budget, results) == Some(ProbeDecision::TimedOut),
    decreases results.len(),
{
    assert(!results[0]);
    if budget == 0 {
    } else {
        assert(forall|j: int|
            0 <= j < results.drop_first().len() ==> !results.drop_first()[j]);
        lemma_probe_times_out((budget - 1) as nat, results.drop_first());
    }
}

} // verus!
