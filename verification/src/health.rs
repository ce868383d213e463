//! The health prober's decision logic: what a probe response must hold for a
//! ready verdict, and the bounded-attempts wait that turns a series of probe
//! outcomes into one readiness verdict.
//!
//! Making a probe — connecting to the primary service's local address,
//! sending the liveness request and reading the response — is the caller's
//! part; each attempt's outcome is handed in as a plain boolean, where a
//! failed connection, write or read counts as a failed attempt.

use crate::text::{contains_str, spec_contains};
use vstd::prelude::*;

verus! {

/// The success status line a ready response must carry.
pub open spec fn spec_status_line() -> Seq<char> {
    "200 OK"@
}

/// The liveness marker a ready response's body must carry.
pub open spec fn spec_body_marker() -> Seq<char> {
    "status"@
}

/// Whether a probe response read from the primary service indicates
/// readiness: it must carry both the success status line and the liveness
/// body marker. Anything else — including a malformed response — counts the
/// same as no response at all.
pub fn response_indicates_ready(response: &str) -> (r: bool)
    ensures
        r == (spec_contains(response@, spec_status_line()) && spec_contains(
            response@,
            spec_body_marker(),
        )),
{
    contains_str(response, "200 OK") && contains_str(response, "status")
}

/// The readiness wait's verdict over a series of probe outcomes: ready
/// exactly when at least one of the first `max_attempts` outcomes is ready.
pub open spec fn spec_wait_verdict(outcomes: Seq<bool>, max_attempts: nat) -> bool {
    exists|k: int| 0 <= k < max_attempts && k < outcomes.len() && outcomes[k]
}

/// What the readiness wait should do next.
pub enum HealthStep {
    /// Make another probe and record its outcome.
    Probe,
    /// The wait is over, with this verdict.
    Done(bool),
}

/// The bounded readiness wait: up to a fixed number of probe attempts, ready
/// on the first successful one. The caller makes each probe (and sleeps its
/// fixed delay between attempts) and records the outcome here.
pub struct HealthWait {
    /// How many attempts the wait may make in all.
    pub max_attempts: u32,
    /// How many attempts have been made.
    pub attempts: u32,
    /// Whether some attempt so far came back ready.
    pub ready: bool,
}

impl HealthWait {
    /// Attempts never exceed the bound, and a ready verdict takes at least
    /// one attempt.
    pub open spec fn wf(self) -> bool {
        &&& self.attempts <= self.max_attempts
        &&& (self.ready ==> 0 < self.attempts)
    }

    /// A fresh wait: no attempts made, not ready.
    pub fn new(max_attempts: u32) -> (h: HealthWait)
        ensures
            h.max_attempts == max_attempts,
            h.attempts == 0,
            !h.ready,
            h.wf(),
    {
        HealthWait { max_attempts, attempts: 0, ready: false }
    }

    /// What to do next: probe again while no attempt succeeded and attempts
    /// remain; otherwise the verdict — true on a successful attempt, false
    /// once the attempts are exhausted.
    pub fn next_step(&self) -> (s: HealthStep)
        ensures
            s == if self.ready {
                HealthStep::Done(true)
            } else if self.attempts == self.max_attempts {
                HealthStep::Done(false)
            } else {
                HealthStep::Probe
            },
    {
        if self.ready {
            HealthStep::Done(true)
        } else if self.attempts == self.max_attempts {
            HealthStep::Done(false)
        } else {
            HealthStep::Probe
        }
    }

    /// Records one probe's outcome. Readiness is sticky: once an attempt
    /// came back ready, the wait stays ready.
    pub fn record(&mut self, outcome: bool)
        requires
            old(self).wf(),
            old(self).attempts < old(self).max_attempts,
        ensures
            final(self).max_attempts == old(self).max_attempts,
            final(self).attempts == old(self).attempts + 1,
            final(self).ready == (old(self).ready || outcome),
            final(self).wf(),
    {
        self.attempts = self.attempts + 1;
        self.ready = self.ready || outcome;
    }
}

/// Runs the readiness wait against a recorded series of probe outcomes,
/// where entry `k` is what attempt `k + 1`'s probe would yield: true exactly
/// when at least one of the first `max_attempts` outcomes is ready, stopping
/// at the first ready outcome.
pub fn wait_ready_outcomes(outcomes: &Vec<bool>, max_attempts: u32) -> (r: bool)
    requires
        outcomes@.len() >= max_attempts,
    ensures
        r == spec_wait_verdict(outcomes@, max_attempts as nat),
{
    let mut h = HealthWait::new(max_attempts);
    loop
        invariant
            h.wf(),
            h.max_attempts == max_attempts,
            outcomes@.len() >= max_attempts,
            h.ready ==> exists|k: int| 0 <= k < h.attempts && outcomes@[k],
            !h.ready ==> forall|k: int| 0 <= k < h.attempts ==> !outcomes@[k],
        decreases max_attempts - h.attempts,
    {
        match h.next_step() {
            HealthStep::Done(v) => {
                return v;
            },
            HealthStep::Probe => {
                let outcome = outcomes[h.attempts as usize];
                h.record(outcome);
            },
        }
    }
}

} // verus!
