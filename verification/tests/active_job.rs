use commandagent::active_job::{ActiveJobDecision, RecoveryOwner};


#[test]
fn active_job_maps_to_recovery_owner() {
    let decision = ActiveJobDecision::new("route_integration_repair", 40, "profile failure");

    assert_eq!(decision.owner, RecoveryOwner::RouteIntegration);
    assert!(decision.render_line().contains("owner=route_integration"));
}

#[test]
fn unknown_job_stops_explicitly_and_reason_is_compacted() {
    let decision = ActiveJobDecision::new("mystery", 7, "  two\n words ");
    assert_eq!(decision.owner, RecoveryOwner::ExplicitStop);
    assert_eq!(
        decision.render_line(),
        "owner=explicit_stop job=mystery priority=7 reason=two words"
    );
    assert_eq!(RecoveryOwner::for_active_job("test_alignment_repair"), RecoveryOwner::Test);
}
