//! Behavior of the alert store and the policy enforcer on concrete values.
//! Scores are fixed-point thousandths: 950 stands for 0.950.

use membrane_agent::anomaly_alerts::{classify, DEFAULT_MAX_ALERTS};
use membrane_agent::{
    Alert, AlertPriority, AnomalyAlertSystem, AnomalyReason, AnomalyScore, PolicyDecision,
    PolicyEnforcer, QvlError,
};

fn anomaly(node: u32, score: u64, reason: AnomalyReason) -> AnomalyScore {
    AnomalyScore { node, score, reason }
}

#[test]
fn test_alert_priority_from_score() {
    let anomaly_critical = anomaly(1, 950, AnomalyReason::NegativeCycle);
    let alert = Alert::from_anomaly(anomaly_critical);
    assert_eq!(alert.priority, AlertPriority::Critical);

    let anomaly_warning = anomaly(2, 750, AnomalyReason::NegativeCycle);
    let alert = Alert::from_anomaly(anomaly_warning);
    assert_eq!(alert.priority, AlertPriority::Warning);
}

#[test]
fn test_alert_system_capacity() {
    let mut system = AnomalyAlertSystem::with_capacity(3);
    for i in 0..5 {
        system.emit(anomaly(i, 900, AnomalyReason::NegativeCycle));
    }
    // Only the last 3 alerts are kept.
    assert_eq!(system.total_count(), 3);
}

#[test]
fn test_filter_by_priority() {
    let mut system = AnomalyAlertSystem::new();

    system.emit(anomaly(1, 950, AnomalyReason::NegativeCycle));
    system.emit(anomaly(2, 750, AnomalyReason::LowCoverage));
    system.emit(anomaly(3, 550, AnomalyReason::BpDivergence));

    let critical = system.get_critical_alerts();
    assert_eq!(critical.len(), 1);
    assert_eq!(critical[0].node, 1);

    let warnings_and_above = system.get_alerts_above(AlertPriority::Warning);
    assert_eq!(warnings_and_above.len(), 2);
}

#[test]
fn classify_thresholds_are_exact() {
    assert_eq!(classify(1000), AlertPriority::Critical);
    assert_eq!(classify(900), AlertPriority::Critical);
    assert_eq!(classify(899), AlertPriority::Warning);
    assert_eq!(classify(700), AlertPriority::Warning);
    assert_eq!(classify(699), AlertPriority::Info);
    assert_eq!(classify(500), AlertPriority::Info);
    assert_eq!(classify(0), AlertPriority::Info);
}

#[test]
fn alert_from_anomaly_freezes_fields() {
    let a = Alert::from_anomaly(anomaly(7, 905, AnomalyReason::LowCoverage));
    assert_eq!(a.node, 7);
    assert_eq!(a.score, 905);
    assert_eq!(a.reason, AnomalyReason::LowCoverage);
    assert_eq!(a.priority, AlertPriority::Critical);
}

#[test]
fn fifo_eviction_keeps_most_recent_in_order() {
    let mut system = AnomalyAlertSystem::with_capacity(3);
    for i in 0..7 {
        system.emit(anomaly(i, 950, AnomalyReason::NegativeCycle));
    }
    // The 4 oldest are gone; the most recent 3 remain, in original order.
    let all = system.get_alerts_above(AlertPriority::Info);
    assert_eq!(all.len(), 3);
    assert_eq!(all[0].node, 4);
    assert_eq!(all[1].node, 5);
    assert_eq!(all[2].node, 6);
}

#[test]
fn at_or_above_warning_is_union_of_critical_and_warning() {
    let mut system = AnomalyAlertSystem::new();
    system.emit(anomaly(1, 950, AnomalyReason::NegativeCycle)); // Critical
    system.emit(anomaly(2, 100, AnomalyReason::Unknown)); // Info
    system.emit(anomaly(3, 750, AnomalyReason::LowCoverage)); // Warning
    system.emit(anomaly(4, 999, AnomalyReason::NegativeCycle)); // Critical
    system.emit(anomaly(5, 699, AnomalyReason::BpDivergence)); // Info

    let at_or_above = system.get_alerts_above(AlertPriority::Warning);
    let nodes: Vec<u32> = at_or_above.iter().map(|a| a.node).collect();
    assert_eq!(nodes, vec![1, 3, 4]);
    for a in &at_or_above {
        assert!(a.priority == AlertPriority::Critical || a.priority == AlertPriority::Warning);
    }
}

#[test]
fn counts_by_priority_sum_to_total() {
    let mut system = AnomalyAlertSystem::with_capacity(5);
    for i in 0..7 {
        let score = match i % 3 {
            0 => 950,
            1 => 750,
            _ => 300,
        };
        system.emit(anomaly(i, score, AnomalyReason::Unknown));
    }
    assert_eq!(system.total_count(), 5);
    let sum = system.count_by_priority(AlertPriority::Critical)
        + system.count_by_priority(AlertPriority::Warning)
        + system.count_by_priority(AlertPriority::Info);
    assert_eq!(sum, system.total_count());
}

#[test]
fn clear_empties_the_store() {
    let mut system = AnomalyAlertSystem::new();
    system.emit(anomaly(1, 950, AnomalyReason::NegativeCycle));
    system.emit(anomaly(2, 750, AnomalyReason::LowCoverage));
    assert_eq!(system.total_count(), 2);
    system.clear();
    assert_eq!(system.total_count(), 0);
    assert_eq!(system.get_critical_alerts().len(), 0);
}

#[test]
fn default_store_has_default_capacity() {
    let mut system = AnomalyAlertSystem::default();
    assert_eq!(system.total_count(), 0);
    assert_eq!(DEFAULT_MAX_ALERTS, 1000);
    system.emit(anomaly(1, 100, AnomalyReason::Unknown));
    assert_eq!(system.total_count(), 1);
}

#[test]
fn priority_rank_orders_severity() {
    assert!(AlertPriority::Critical.rank() < AlertPriority::Warning.rank());
    assert!(AlertPriority::Warning.rank() < AlertPriority::Info.rank());
    assert!(AlertPriority::Critical.at_least(AlertPriority::Warning));
    assert!(AlertPriority::Warning.at_least(AlertPriority::Warning));
    assert!(!AlertPriority::Info.at_least(AlertPriority::Warning));
}

#[test]
fn test_policy_enforcer_neutral() {
    let enforcer = PolicyEnforcer::new();

    // An identifier with no oracle record surfaces as a failed query.
    let decision = enforcer.should_accept_packet(Err(QvlError::TrustScoreFailed));
    assert_eq!(decision, PolicyDecision::Neutral);

    let decision = enforcer.should_accept_packet(Err(QvlError::InvalidDid));
    assert_eq!(decision, PolicyDecision::Neutral);
}

#[test]
fn policy_bands_under_default_thresholds() {
    let enforcer = PolicyEnforcer::new();
    assert_eq!(enforcer.should_accept_packet(Ok(50)), PolicyDecision::Drop);
    assert_eq!(enforcer.should_accept_packet(Ok(300)), PolicyDecision::Deprioritize);
    assert_eq!(enforcer.should_accept_packet(Ok(600)), PolicyDecision::Accept);
}

#[test]
fn policy_band_edges() {
    let enforcer = PolicyEnforcer::new();
    assert_eq!(enforcer.should_accept_packet(Ok(99)), PolicyDecision::Drop);
    assert_eq!(enforcer.should_accept_packet(Ok(100)), PolicyDecision::Deprioritize);
    assert_eq!(enforcer.should_accept_packet(Ok(499)), PolicyDecision::Deprioritize);
    assert_eq!(enforcer.should_accept_packet(Ok(500)), PolicyDecision::Accept);

    let custom = PolicyEnforcer::with_thresholds(200, 800);
    assert_eq!(custom.should_accept_packet(Ok(199)), PolicyDecision::Drop);
    assert_eq!(custom.should_accept_packet(Ok(200)), PolicyDecision::Deprioritize);
    assert_eq!(custom.should_accept_packet(Ok(800)), PolicyDecision::Accept);
}

#[test]
fn test_betrayal_check_clean_graph() {
    let enforcer = PolicyEnforcer::new();

    // A clean graph probes as score 0 with no reason.
    let probe = Ok(anomaly(0, 0, AnomalyReason::NoAnomaly));
    let result = enforcer.check_for_betrayal(probe);
    assert_eq!(result, None);
}

#[test]
fn betrayal_floor_is_strict() {
    let enforcer = PolicyEnforcer::new();
    assert_eq!(enforcer.check_for_betrayal(Ok(anomaly(1, 700, AnomalyReason::NegativeCycle))), None);
    assert_eq!(
        enforcer.check_for_betrayal(Ok(anomaly(1, 701, AnomalyReason::NegativeCycle))),
        Some(701)
    );
    assert_eq!(enforcer.check_for_betrayal(Err(QvlError::NullContext)), None);
}

#[test]
fn test_batch_check() {
    let enforcer = PolicyEnforcer::new();

    // A clean graph has no betrayals for any probed node.
    let probes: Vec<AnomalyScore> =
        (0..5).map(|i| anomaly(i, 0, AnomalyReason::NoAnomaly)).collect();
    let betrayals = enforcer.batch_check_betrayal(&probes);
    assert_eq!(betrayals.len(), 0);
}

#[test]
fn batch_check_keeps_findings_in_input_order() {
    let enforcer = PolicyEnforcer::new();
    let probes = vec![
        anomaly(10, 950, AnomalyReason::NegativeCycle),
        anomaly(11, 200, AnomalyReason::NoAnomaly),
        anomaly(12, 701, AnomalyReason::LowCoverage),
        anomaly(13, 700, AnomalyReason::BpDivergence),
    ];
    let betrayals = enforcer.batch_check_betrayal(&probes);
    assert_eq!(betrayals, vec![(10, 950), (12, 701)]);
}

#[test]
fn anomaly_reason_from_u8_covers_every_byte() {
    assert_eq!(AnomalyReason::from_u8(0), AnomalyReason::NoAnomaly);
    assert_eq!(AnomalyReason::from_u8(1), AnomalyReason::NegativeCycle);
    assert_eq!(AnomalyReason::from_u8(2), AnomalyReason::LowCoverage);
    assert_eq!(AnomalyReason::from_u8(3), AnomalyReason::BpDivergence);
    assert_eq!(AnomalyReason::from_u8(4), AnomalyReason::Unknown);
    assert_eq!(AnomalyReason::from_u8(255), AnomalyReason::Unknown);
}
