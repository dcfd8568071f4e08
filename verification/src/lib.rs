//! Trust-based network defense edge: a binary frame decoder for transport
//! events, a policy decision function over trust scores, and a bounded,
//! order-preserving anomaly alert store.
//!
//! Scores are fixed-point values in thousandths of a unit (a score of `950`
//! stands for 0.950), so that thresholds and comparisons are exact.

pub mod anomaly_alerts;
pub mod event_codec;
pub mod policy_enforcer;
pub mod qvl;
mod seq_util;

pub use anomaly_alerts::{Alert, AlertPriority, AnomalyAlertSystem};
pub use event_codec::{
    DecodeError, DecodedFrame, EventListenerConfig, EventListenerError, FrameHeader, L0Event,
};
pub use policy_enforcer::{PolicyDecision, PolicyEnforcer};
pub use qvl::{AnomalyReason, AnomalyScore, PopVerdict, QvlError};
