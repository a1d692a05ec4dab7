//! Bookkeeping of the maintenance loop, and the status responses built
//! from it.
//!
//! The loop itself lives in the binary: it polls the chain through the
//! consistent reader, lets the maintenance executor perform at most one
//! action, sleeps a jittered while when there is nothing to do, and serves
//! status requests from other threads. Everything the loop decides — how an
//! iteration's outcome moves the counters, what gets published, and what a
//! status request is answered with — is specified and verified here. The
//! published bundle is immutable; the binary swaps a fresh one in under a
//! lock after every iteration, so a concurrent status request sees either
//! the not-ready marker or a complete bundle from some finished iteration.

use vstd::prelude::*;
use vstd::string::StringExecFns;

use crate::metrics::{spec_prometheus, MaintenanceMetrics};

verus! {

/// The kinds of maintenance action the task executor can perform.
#[derive(Clone, Copy, PartialEq, Eq, Structural, Debug)]
pub enum ActionKind {
    StakeDeposit,
    UpdateExchangeRate,
    WithdrawInactiveStake,
    CollectValidatorFee,
    MergeStake,
    ClaimValidatorFee,
    UnstakeFromInactiveValidator,
    RemoveValidator,
}

/// What one iteration of the maintenance loop amounted to.
#[derive(Clone, Copy, PartialEq, Eq, Structural, Debug)]
pub enum IterationOutcome {
    /// The state loaded and one maintenance action was performed.
    Performed(ActionKind),
    /// The state loaded and no action was due.
    NothingDue,
    /// The iteration failed; the loop logs it, counts it and goes on.
    Failed,
}

/// The counter of `kind` in `m`.
pub open spec fn spec_counter_of(m: MaintenanceMetrics, kind: ActionKind) -> int {
    match kind {
        ActionKind::StakeDeposit => m.transactions_stake_deposit as int,
        ActionKind::UpdateExchangeRate => m.transactions_update_exchange_rate as int,
        ActionKind::WithdrawInactiveStake => m.transactions_withdraw_inactive_stake as int,
        ActionKind::CollectValidatorFee => m.transactions_collect_validator_fee as int,
        ActionKind::MergeStake => m.transactions_merge_stake as int,
        ActionKind::ClaimValidatorFee => m.transactions_claim_validator_fee as int,
        ActionKind::UnstakeFromInactiveValidator => m.transactions_unstake_from_inactive_validator
            as int,
        ActionKind::RemoveValidator => m.transactions_remove_validator as int,
    }
}

/// `m` with the counter of `kind` one higher.
pub open spec fn spec_bump(m: MaintenanceMetrics, kind: ActionKind) -> MaintenanceMetrics {
    match kind {
        ActionKind::StakeDeposit => MaintenanceMetrics {
            transactions_stake_deposit: (m.transactions_stake_deposit + 1) as u64,
            ..m
        },
        ActionKind::UpdateExchangeRate => MaintenanceMetrics {
            transactions_update_exchange_rate: (m.transactions_update_exchange_rate + 1) as u64,
            ..m
        },
        ActionKind::WithdrawInactiveStake => MaintenanceMetrics {
            transactions_withdraw_inactive_stake: (m.transactions_withdraw_inactive_stake
                + 1) as u64,
            ..m
        },
        ActionKind::CollectValidatorFee => MaintenanceMetrics {
            transactions_collect_validator_fee: (m.transactions_collect_validator_fee + 1) as u64,
            ..m
        },
        ActionKind::MergeStake => MaintenanceMetrics {
            transactions_merge_stake: (m.transactions_merge_stake + 1) as u64,
            ..m
        },
        ActionKind::ClaimValidatorFee => MaintenanceMetrics {
            transactions_claim_validator_fee: (m.transactions_claim_validator_fee + 1) as u64,
            ..m
        },
        ActionKind::UnstakeFromInactiveValidator => MaintenanceMetrics {
            transactions_unstake_from_inactive_validator: (
            m.transactions_unstake_from_inactive_validator + 1) as u64,
            ..m
        },
        ActionKind::RemoveValidator => MaintenanceMetrics {
            transactions_remove_validator: (m.transactions_remove_validator + 1) as u64,
            ..m
        },
    }
}

/// The counters after an iteration: one more poll, and depending on the
/// outcome one more action count or one more error.
pub open spec fn spec_record(m: MaintenanceMetrics, outcome: IterationOutcome) -> MaintenanceMetrics {
    let polled = MaintenanceMetrics { polls: (m.polls + 1) as u64, ..m };
    match outcome {
        IterationOutcome::Performed(kind) => spec_bump(polled, kind),
        IterationOutcome::NothingDue => polled,
        IterationOutcome::Failed => MaintenanceMetrics { errors: (polled.errors + 1) as u64, ..polled },
    }
}

/// Account for one iteration of the loop.
///
/// Every iteration counts as a poll. A performed action moves its own
/// counter; a failure moves the error counter. The returned flag tells the
/// loop to sleep a jittered while before the next iteration: it waits
/// exactly when no action was performed, so that cooperating bot instances
/// fall out of step and do not race for the same transaction.
pub fn record_iteration(metrics: &mut MaintenanceMetrics, outcome: &IterationOutcome) -> (do_wait:
    bool)
    requires
        old(metrics).polls < u64::MAX,
        outcome matches IterationOutcome::Failed ==> old(metrics).errors < u64::MAX,
        *outcome matches IterationOutcome::Performed(kind) ==> spec_counter_of(
            *old(metrics),
            kind,
        ) < u64::MAX,
    ensures
        *final(metrics) == spec_record(*old(metrics), *outcome),
        do_wait == !(*outcome matches IterationOutcome::Performed(_)),
{
    metrics.polls = metrics.polls + 1;
    match outcome {
        IterationOutcome::Performed(kind) => {
            match kind {
                ActionKind::StakeDeposit => {
                    metrics.transactions_stake_deposit = metrics.transactions_stake_deposit + 1;
                },
                ActionKind::UpdateExchangeRate => {
                    metrics.transactions_update_exchange_rate =
                        metrics.transactions_update_exchange_rate + 1;
                },
                ActionKind::WithdrawInactiveStake => {
                    metrics.transactions_withdraw_inactive_stake =
                        metrics.transactions_withdraw_inactive_stake + 1;
                },
                ActionKind::CollectValidatorFee => {
                    metrics.transactions_collect_validator_fee =
                        metrics.transactions_collect_validator_fee + 1;
                },
                ActionKind::MergeStake => {
                    metrics.transactions_merge_stake = metrics.transactions_merge_stake + 1;
                },
                ActionKind::ClaimValidatorFee => {
                    metrics.transactions_claim_validator_fee =
                        metrics.transactions_claim_validator_fee + 1;
                },
                ActionKind::UnstakeFromInactiveValidator => {
                    metrics.transactions_unstake_from_inactive_validator =
                        metrics.transactions_unstake_from_inactive_validator + 1;
                },
                ActionKind::RemoveValidator => {
                    metrics.transactions_remove_validator = metrics.transactions_remove_validator
                        + 1;
                },
            }
            false
        },
        IterationOutcome::NothingDue => true,
        IterationOutcome::Failed => {
            metrics.errors = metrics.errors + 1;
            true
        },
    }
}

/// What the scheduler publishes after every iteration, and what the status
/// server reads. Never mutated after publication: the loop builds a fresh
/// bundle off-lock and swaps it in.
#[derive(Clone)]
pub struct StatusBundle {
    /// The counters at the end of the iteration.
    pub metrics: MaintenanceMetrics,
    /// Gauges of the last successfully loaded protocol state, already in
    /// exposition format; absent until a first load succeeds.
    pub state_gauges: Option<String>,
}

/// The bundle to publish after an iteration: the fresh counters, and the
/// gauges of this iteration's state if it loaded, otherwise the last good
/// gauges. A failed iteration therefore keeps serving the previous state.
pub fn next_bundle(
    metrics: MaintenanceMetrics,
    loaded: Option<String>,
    previous: Option<StatusBundle>,
) -> (b: StatusBundle)
    ensures
        b.metrics == metrics,
        loaded matches Some(g) ==> b.state_gauges == Some(g),
        previous matches Some(p) ==> (loaded is None ==> b.state_gauges == p.state_gauges),
        loaded is None && previous is None ==> b.state_gauges is None,
{
    let state_gauges = match loaded {
        Some(g) => Some(g),
        None => match previous {
            Some(p) => p.state_gauges,
            None => None,
        },
    };
    StatusBundle { metrics, state_gauges }
}

/// A response of the status endpoint.
pub struct StatusResponse {
    /// The HTTP status code to answer with.
    pub status_code: u16,
    /// The response body.
    pub body: String,
}

/// The body served before the first iteration has published a bundle.
pub open spec fn spec_not_ready_body() -> Seq<char> {
    "Service Unavailable\n\nServer is still starting, try again shortly."@
}

/// Answer a status request from the currently published bundle.
///
/// Before the first publication the answer is 503 with an explanatory
/// body. Afterwards it is 200 with the counters in exposition format,
/// followed by the state gauges once a state has loaded. The request
/// itself is ignored: every path serves the same document.
pub fn render_status(published: Option<&StatusBundle>) -> (r: StatusResponse)
    ensures
        published is None ==> r.status_code == 503 && r.body@ == spec_not_ready_body(),
        published matches Some(b) ==> r.status_code == 200 && (b.state_gauges matches Some(g)
            ==> r.body@ == spec_prometheus(b.metrics) + g@) && (b.state_gauges is None ==> r.body@
            == spec_prometheus(b.metrics)),
{
    match published {
        None => StatusResponse {
            status_code: 503,
            body: String::from_str(
                "Service Unavailable\n\nServer is still starting, try again shortly.",
            ),
        },
        Some(bundle) => {
            let mut body = bundle.metrics.write_prometheus();
            match &bundle.state_gauges {
                Some(gauges) => body.append(gauges.as_str()),
                None => (),
            }
            StatusResponse { status_code: 200, body }
        },
    }
}

} // verus!
