//! Aggregate counters of a run.
use vstd::prelude::*;
use crate::reply::ProbeOutcome;

verus! {

/// Counters of a run: probes to send, and how many succeeded or failed.
#[derive(Debug, Clone, Copy, PartialEq, Eq, Structural)]
pub struct RunStatistics {
    pub sent: u32,
    pub succeeded: u32,
    pub failed: u32,
}

/// Loss as a whole percentage, rounded down; no probes means no loss.
pub open spec fn loss_percent_spec(failed: nat, sent: nat) -> nat {
    if sent == 0 {
        0
    } else {
        failed * 100 / sent
    }
}

impl RunStatistics {
    /// Counters of a run of `sent` probes before any outcome.
    pub fn new(sent: u16) -> (r: Self)
        ensures
            r.sent == sent,
            r.succeeded == 0,
            r.failed == 0,
    {
        RunStatistics { sent: sent as u32, succeeded: 0, failed: 0 }
    }

    /// Counts one outcome: a success raises `succeeded`, a timeout or an
    /// invalid response raises `failed`.
    pub fn record(&mut self, outcome: &ProbeOutcome)
        requires
            old(self).succeeded < u32::MAX,
            old(self).failed < u32::MAX,
        ensures
            final(self).sent == old(self).sent,
            *outcome is Success ==> final(self).succeeded == old(self).succeeded + 1
                && final(self).failed == old(self).failed,
            !(*outcome is Success) ==> final(self).failed == old(self).failed + 1
                && final(self).succeeded == old(self).succeeded,
    {
        match outcome {
            ProbeOutcome::Success { .. } => self.succeeded = self.succeeded + 1,
            _ => self.failed = self.failed + 1,
        }
    }

    /// `failed * 100 / sent` in whole percent, rounded down; 0 when nothing
    /// was sent.
    pub fn loss_percent(&self) -> (r: u64)
        ensures
            r == loss_percent_spec(self.failed as nat, self.sent as nat),
    {
        if self.sent == 0 {
            0
        } else {
            (self.failed as u64) * 100 / (self.sent as u64)
        }
    }
}

} // verus!
