//! Policy Enforcer: turns a trust score from the external oracle into a
//! discrete forwarding decision.
//!
//! The oracle query itself happens at the caller's boundary; the functions
//! here take the oracle's reply as an argument, so every decision path is
//! a pure, verified function of that reply and the two configured
//! thresholds.

use vstd::prelude::*;
use crate::qvl::{AnomalyScore, QvlError};
use crate::seq_util::lemma_filter_push;

verus! {

/// Forwarding decision for one packet.
#[derive(Debug, Clone, Copy, PartialEq, Eq, Structural)]
pub enum PolicyDecision {
    /// Accept the packet for normal processing or relay.
    Accept,
    /// Queue the packet with low priority.
    Deprioritize,
    /// Drop the packet silently.
    Drop,
    /// No trust data available: treat the sender as neutral.
    Neutral,
}

/// Default drop threshold, in thousandths (trust below 0.1 drops).
pub const DEFAULT_DROP_THRESHOLD: u64 = 100;

/// Default untrusted threshold, in thousandths (trust below 0.5 is
/// deprioritized).
pub const DEFAULT_UNTRUSTED_THRESHOLD: u64 = 500;

/// Severity floor for betrayal findings, in thousandths: an anomaly counts
/// as a finding only when its score exceeds 0.7.
pub const BETRAYAL_SEVERITY_FLOOR: u64 = 700;

/// Trust-based policy enforcer: two thresholds, no other state.
pub struct PolicyEnforcer {
    /// Trust strictly below this is dropped (thousandths).
    pub drop_threshold: u64,
    /// Trust strictly below this (but at or above `drop_threshold`) is
    /// deprioritized (thousandths).
    pub untrusted_threshold: u64,
}

impl PolicyEnforcer {
    /// The decision owed for one oracle reply: any failure collapses to
    /// `Neutral`; otherwise the score falls into one of three bands.
    pub open spec fn spec_decision(self, trust: Result<u64, QvlError>) -> PolicyDecision {
        match trust {
            Ok(score) => if score < self.drop_threshold {
                PolicyDecision::Drop
            } else if score < self.untrusted_threshold {
                PolicyDecision::Deprioritize
            } else {
                PolicyDecision::Accept
            },
            Err(_) => PolicyDecision::Neutral,
        }
    }

    /// Create an enforcer with the default thresholds.
    pub fn new() -> (r: PolicyEnforcer)
        ensures
            r.drop_threshold == DEFAULT_DROP_THRESHOLD,
            r.untrusted_threshold == DEFAULT_UNTRUSTED_THRESHOLD,
    {
        PolicyEnforcer {
            drop_threshold: DEFAULT_DROP_THRESHOLD,
            untrusted_threshold: DEFAULT_UNTRUSTED_THRESHOLD,
        }
    }

    /// Create an enforcer with custom thresholds (thousandths).
    pub fn with_thresholds(drop_threshold: u64, untrusted_threshold: u64) -> (r: PolicyEnforcer)
        ensures
            r.drop_threshold == drop_threshold,
            r.untrusted_threshold == untrusted_threshold,
    {
        PolicyEnforcer { drop_threshold, untrusted_threshold }
    }

    /// Decide whether to accept a packet, given the oracle's reply to a
    /// trust-score query for the sender.
    ///
    /// Any failed query (no record for the identifier, or any oracle
    /// fault) yields `Neutral`: an unknown peer is information-absent,
    /// never trusted or hostile.
    pub fn should_accept_packet(&self, trust: Result<u64, QvlError>) -> (r: PolicyDecision)
        ensures
            r == self.spec_decision(trust),
            trust is Err ==> r == PolicyDecision::Neutral,
    {
        match trust {
            Ok(score) => {
                if score < self.drop_threshold {
                    PolicyDecision::Drop
                } else if score < self.untrusted_threshold {
                    PolicyDecision::Deprioritize
                } else {
                    PolicyDecision::Accept
                }
            },
            Err(_) => PolicyDecision::Neutral,
        }
    }

    /// Whether an anomaly probe is a betrayal finding: it is one exactly
    /// when its score exceeds the fixed severity floor.
    pub open spec fn spec_finding(probe: Result<AnomalyScore, QvlError>) -> Option<u64> {
        match probe {
            Ok(anomaly) => if anomaly.score > BETRAYAL_SEVERITY_FLOOR {
                Some(anomaly.score)
            } else {
                None
            },
            Err(_) => None,
        }
    }

    /// Report a node's anomaly score as a finding only if it exceeds the
    /// severity floor; a failed probe is no finding.
    pub fn check_for_betrayal(&self, probe: Result<AnomalyScore, QvlError>) -> (r: Option<u64>)
        ensures
            r == PolicyEnforcer::spec_finding(probe),
    {
        match probe {
            Ok(anomaly) => {
                if anomaly.score > BETRAYAL_SEVERITY_FLOOR {
                    Some(anomaly.score)
                } else {
                    None
                }
            },
            Err(_) => None,
        }
    }

    /// Keep exactly the probes that are findings, in input order, as
    /// (node, score) pairs.
    pub fn batch_check_betrayal(&self, probes: &Vec<AnomalyScore>) -> (r: Vec<(u32, u64)>)
        ensures
            r@ == probes@.filter(finding_pred()).map_values(finding_pair()),
    {
        let mut findings: Vec<(u32, u64)> = Vec::new();
        let mut i: usize = 0;
        while i < probes.len()
            invariant
                i <= probes.len(),
                findings@ == probes@.take(i as int).filter(finding_pred()).map_values(finding_pair()),
            decreases probes.len() - i,
        {
            let ghost pre = findings@;
            let probe = probes[i];
            proof {
                let taken = probes@.take(i as int);
                lemma_filter_push(taken, finding_pred(), probe);
                assert(taken.push(probe) =~= probes@.take(i as int + 1));
            }
            if self.check_for_betrayal(Ok(probe)).is_some() {
                findings.push((probe.node, probe.score));
                proof {
                    let taken = probes@.take(i as int);
                    assert(finding_pred()(probe));
                    assert(findings@ == pre.push(finding_pair()(probe)));
                    assert(taken.filter(finding_pred()).push(probe).map_values(finding_pair())
                        =~= taken.filter(finding_pred()).map_values(finding_pair()).push(finding_pair()(probe)));
                    assert(findings@
                        == probes@.take(i as int + 1).filter(finding_pred()).map_values(finding_pair()));
                }
            } else {
                proof {
                    assert(!finding_pred()(probe));
                    assert(findings@
                        == probes@.take(i as int + 1).filter(finding_pred()).map_values(finding_pair()));
                }
            }
            i = i + 1;
        }
        proof {
            assert(probes@.take(probes@.len() as int) == probes@);
        }
        findings
    }
}

/// A probe counts as a betrayal finding exactly when its score exceeds the
/// severity floor.
pub open spec fn finding_pred() -> spec_fn(AnomalyScore) -> bool {
    |a: AnomalyScore| a.score > BETRAYAL_SEVERITY_FLOOR
}

/// A finding is reported as its (node, score) pair.
pub open spec fn finding_pair() -> spec_fn(AnomalyScore) -> (u32, u64) {
    |a: AnomalyScore| (a.node, a.score)
}

} // verus!
