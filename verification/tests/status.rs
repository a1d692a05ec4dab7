use solido_maintainer::metrics::MaintenanceMetrics;
use solido_maintainer::scheduler::{
    next_bundle, record_iteration, render_status, ActionKind, IterationOutcome, StatusBundle,
};

#[test]
fn status_before_the_first_iteration_is_not_ready() {
    let response = render_status(None);
    assert_eq!(response.status_code, 503);
    assert_eq!(
        response.body,
        "Service Unavailable\n\nServer is still starting, try again shortly."
    );
}

#[test]
fn status_serves_the_counters_in_exposition_format() {
    let mut metrics = MaintenanceMetrics::new();
    metrics.polls = 17;
    metrics.errors = 3;
    metrics.transactions_stake_deposit = 2;
    let bundle = StatusBundle { metrics, state_gauges: None };
    let response = render_status(Some(&bundle));
    assert_eq!(response.status_code, 200);
    let expected = "\
# HELP solido_maintenance_polls_total Number of times we checked if there is maintenance to perform, since launch.\n\
# TYPE solido_maintenance_polls_total counter\n\
solido_maintenance_polls_total 17\n\
# HELP solido_maintenance_errors_total Number of times we encountered an error while trying to perform maintenance, since launch.\n\
# TYPE solido_maintenance_errors_total counter\n\
solido_maintenance_errors_total 3\n\
# HELP solido_maintenance_transactions_total Number of maintenance transactions executed, since launch.\n\
# TYPE solido_maintenance_transactions_total counter\n\
solido_maintenance_transactions_total{operation=\"StakeDeposit\"} 2\n\
solido_maintenance_transactions_total{operation=\"UpdateExchangeRate\"} 0\n\
solido_maintenance_transactions_total{operation=\"WithdrawInactiveStake\"} 0\n\
solido_maintenance_transactions_total{operation=\"CollectValidatorFee\"} 0\n\
solido_maintenance_transactions_total{operation=\"MergeStake\"} 0\n\
solido_maintenance_transactions_total{operation=\"ClaimValidatorFee\"} 0\n\
solido_maintenance_transactions_total{operation=\"UnstakeFromInactiveValidator\"} 0\n\
solido_maintenance_transactions_total{operation=\"RemoveValidator\"} 0\n";
    assert_eq!(response.body, expected);
}

#[test]
fn status_appends_state_gauges_once_available() {
    let metrics = MaintenanceMetrics::new();
    let gauges = "solido_exchange_rate_supply_st_sol_total 12345\n".to_string();
    let bundle = StatusBundle { metrics, state_gauges: Some(gauges.clone()) };
    let response = render_status(Some(&bundle));
    assert_eq!(response.status_code, 200);
    assert!(response.body.ends_with(&gauges));
    assert!(response.body.starts_with("# HELP solido_maintenance_polls_total"));
}

#[test]
fn large_counters_render_in_full() {
    let mut metrics = MaintenanceMetrics::new();
    metrics.polls = 1234567890123456789;
    let body = metrics.write_prometheus();
    assert!(body.contains("solido_maintenance_polls_total 1234567890123456789\n"));
}

#[test]
fn every_iteration_counts_as_a_poll() {
    let mut metrics = MaintenanceMetrics::new();

    let wait = record_iteration(&mut metrics, &IterationOutcome::Performed(ActionKind::MergeStake));
    assert!(!wait);
    assert_eq!(metrics.polls, 1);
    assert_eq!(metrics.transactions_merge_stake, 1);
    assert_eq!(metrics.errors, 0);

    let wait = record_iteration(&mut metrics, &IterationOutcome::Failed);
    assert!(wait);
    assert_eq!(metrics.polls, 2);
    assert_eq!(metrics.errors, 1);

    let wait = record_iteration(&mut metrics, &IterationOutcome::NothingDue);
    assert!(wait);
    assert_eq!(metrics.polls, 3);
    assert_eq!(metrics.errors, 1);
    assert_eq!(metrics.transactions_merge_stake, 1);
}

#[test]
fn each_action_kind_moves_its_own_counter() {
    let mut metrics = MaintenanceMetrics::new();
    let kinds = [
        ActionKind::StakeDeposit,
        ActionKind::UpdateExchangeRate,
        ActionKind::WithdrawInactiveStake,
        ActionKind::CollectValidatorFee,
        ActionKind::MergeStake,
        ActionKind::ClaimValidatorFee,
        ActionKind::UnstakeFromInactiveValidator,
        ActionKind::RemoveValidator,
    ];
    for kind in kinds {
        record_iteration(&mut metrics, &IterationOutcome::Performed(kind));
    }
    assert_eq!(metrics.polls, 8);
    assert_eq!(metrics.transactions_stake_deposit, 1);
    assert_eq!(metrics.transactions_update_exchange_rate, 1);
    assert_eq!(metrics.transactions_withdraw_inactive_stake, 1);
    assert_eq!(metrics.transactions_collect_validator_fee, 1);
    assert_eq!(metrics.transactions_merge_stake, 1);
    assert_eq!(metrics.transactions_claim_validator_fee, 1);
    assert_eq!(metrics.transactions_unstake_from_inactive_validator, 1);
    assert_eq!(metrics.transactions_remove_validator, 1);
}

#[test]
fn a_failed_iteration_keeps_the_last_good_state() {
    let metrics = MaintenanceMetrics::new();
    let first = next_bundle(metrics, Some("gauges of iteration one\n".to_string()), None);
    assert_eq!(first.state_gauges.as_deref(), Some("gauges of iteration one\n"));

    // The next iteration fails to load: the published gauges stay.
    let second = next_bundle(metrics, None, Some(first));
    assert_eq!(second.state_gauges.as_deref(), Some("gauges of iteration one\n"));
}

#[test]
fn no_state_is_published_before_the_first_successful_load() {
    let metrics = MaintenanceMetrics::new();
    let bundle = next_bundle(metrics, None, None);
    assert!(bundle.state_gauges.is_none());
}
