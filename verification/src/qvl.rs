//! Vocabulary types for the external trust/reputation oracle.
//!
//! The oracle itself is an external service; this module holds the plain
//! values that its replies carry into the core's logic.

use vstd::prelude::*;

verus! {

/// Why the oracle flagged a node as anomalous.
#[derive(Debug, Clone, Copy, PartialEq, Eq, Structural)]
pub enum AnomalyReason {
    NoAnomaly,
    NegativeCycle,
    LowCoverage,
    BpDivergence,
    Unknown,
}

impl AnomalyReason {
    /// The reason encoded by one wire byte; bytes outside the known range
    /// decode to `Unknown`.
    pub open spec fn spec_from_u8(val: u8) -> AnomalyReason {
        if val == 0 {
            AnomalyReason::NoAnomaly
        } else if val == 1 {
            AnomalyReason::NegativeCycle
        } else if val == 2 {
            AnomalyReason::LowCoverage
        } else if val == 3 {
            AnomalyReason::BpDivergence
        } else {
            AnomalyReason::Unknown
        }
    }

    /// Decode a wire byte into a reason.
    pub fn from_u8(val: u8) -> (r: AnomalyReason)
        ensures
            r == AnomalyReason::spec_from_u8(val),
    {
        match val {
            0 => AnomalyReason::NoAnomaly,
            1 => AnomalyReason::NegativeCycle,
            2 => AnomalyReason::LowCoverage,
            3 => AnomalyReason::BpDivergence,
            _ => AnomalyReason::Unknown,
        }
    }
}

/// An anomaly score as reported by the oracle for one node.
///
/// `score` is a fixed-point value in thousandths of a unit (950 stands for
/// 0.950). The oracle's domain is nominally 0.0 to 1.0, but no upper bound
/// is enforced here.
#[derive(Debug, Clone, Copy, PartialEq, Eq, Structural)]
pub struct AnomalyScore {
    pub node: u32,
    pub score: u64,
    pub reason: AnomalyReason,
}

/// Verdict of a proof-of-path check at the oracle boundary.
#[derive(Debug, Clone, Copy, PartialEq, Eq, Structural)]
pub enum PopVerdict {
    Valid,
    InvalidEndpoints,
    BrokenLink,
    Revoked,
    Replay,
}

/// Failures at the oracle boundary.
#[derive(Debug, Clone, Copy, PartialEq, Eq, Structural)]
pub enum QvlError {
    /// The oracle could not be initialized.
    InitFailed,
    /// An identifier was not 32 bytes long.
    InvalidDid,
    /// The trust score query failed (no data, or a transport fault).
    TrustScoreFailed,
    /// A graph mutation was rejected.
    MutationFailed,
    /// The oracle handle was already released.
    NullContext,
}

} // verus!
