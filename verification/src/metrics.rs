//! Counters of the maintenance loop, and their text exposition.
//!
//! The status server answers every request with these counters in the
//! line-oriented exposition format scrapers expect: a `# HELP` line, a
//! `# TYPE` line, then one sample line per counter, with the per-action
//! transaction counts told apart by an `operation` label. The encoding is
//! specified character for character by [`spec_prometheus`].

use vstd::prelude::*;
use vstd::string::StringExecFns;

verus! {

/// Decimal digit `d` as a character.
pub open spec fn spec_digit(d: int) -> char {
    if d == 0 {
        '0'
    } else if d == 1 {
        '1'
    } else if d == 2 {
        '2'
    } else if d == 3 {
        '3'
    } else if d == 4 {
        '4'
    } else if d == 5 {
        '5'
    } else if d == 6 {
        '6'
    } else if d == 7 {
        '7'
    } else if d == 8 {
        '8'
    } else {
        '9'
    }
}

/// `n` written in decimal, most significant digit first, no leading zeros
/// (a single zero for zero).
pub open spec fn spec_dec(n: int) -> Seq<char>
    decreases n,
{
    if n < 10 {
        seq![spec_digit(n)]
    } else {
        spec_dec(n / 10).push(spec_digit(n % 10))
    }
}

/// One digit as a string slice.
fn digit_str(d: u64) -> (s: &'static str)
    requires
        d < 10,
    ensures
        s@ == seq![spec_digit(d as int)],
{
    let s: &'static str = match d {
        0 => "0",
        1 => "1",
        2 => "2",
        3 => "3",
        4 => "4",
        5 => "5",
        6 => "6",
        7 => "7",
        8 => "8",
        _ => "9",
    };
    proof {
        reveal_strlit("0");
        reveal_strlit("1");
        reveal_strlit("2");
        reveal_strlit("3");
        reveal_strlit("4");
        reveal_strlit("5");
        reveal_strlit("6");
        reveal_strlit("7");
        reveal_strlit("8");
        reveal_strlit("9");
        assert(s@ =~= seq![spec_digit(d as int)]);
    }
    s
}

/// Append `n` in decimal.
fn push_decimal(out: &mut String, n: u64)
    ensures
        final(out)@ == old(out)@ + spec_dec(n as int),
    decreases n,
{
    if n < 10 {
        out.append(digit_str(n));
    } else {
        push_decimal(out, n / 10);
        out.append(digit_str(n % 10));
        proof {
            assert(out@ =~= old(out)@ + spec_dec(n as int));
        }
    }
}

/// A counter family of one sample: help line, type line, sample line.
pub open spec fn spec_counter_block(name: Seq<char>, help: Seq<char>, value: int) -> Seq<char> {
    "# HELP "@ + name + " "@ + help + "\n# TYPE "@ + name + " counter\n"@ + name + " "@
        + spec_dec(value) + "\n"@
}

/// One sample line with an `operation` label.
pub open spec fn spec_labeled_line(name: Seq<char>, operation: Seq<char>, value: int) -> Seq<
    char,
> {
    name + "{operation=\""@ + operation + "\"} "@ + spec_dec(value) + "\n"@
}

fn append_counter_block(out: &mut String, name: &str, help: &str, value: u64)
    ensures
        final(out)@ == old(out)@ + spec_counter_block(name@, help@, value as int),
{
    out.append("# HELP ");
    out.append(name);
    out.append(" ");
    out.append(help);
    out.append("\n# TYPE ");
    out.append(name);
    out.append(" counter\n");
    out.append(name);
    out.append(" ");
    push_decimal(out, value);
    out.append("\n");
    proof {
        assert(out@ =~= old(out)@ + spec_counter_block(name@, help@, value as int));
    }
}

fn append_labeled_line(out: &mut String, name: &str, operation: &str, value: u64)
    ensures
        final(out)@ == old(out)@ + spec_labeled_line(name@, operation@, value as int),
{
    out.append(name);
    out.append("{operation=\"");
    out.append(operation);
    out.append("\"} ");
    push_decimal(out, value);
    out.append("\n");
    proof {
        assert(out@ =~= old(out)@ + spec_labeled_line(name@, operation@, value as int));
    }
}

/// Counters that track what the maintenance daemon has done since launch.
#[derive(Clone, Copy, PartialEq, Eq, Structural, Debug)]
pub struct MaintenanceMetrics {
    /// Number of times that we checked if there was maintenance to perform.
    pub polls: u64,
    /// Number of times that we tried to perform maintenance, but
    /// encountered an error.
    pub errors: u64,
    /// Number of times we performed a stake deposit.
    pub transactions_stake_deposit: u64,
    /// Number of times we updated the exchange rate.
    pub transactions_update_exchange_rate: u64,
    /// Number of times we withdrew inactive stake.
    pub transactions_withdraw_inactive_stake: u64,
    /// Number of times we collected validator fees.
    pub transactions_collect_validator_fee: u64,
    /// Number of times we merged stake accounts.
    pub transactions_merge_stake: u64,
    /// Number of times we claimed a validator fee.
    pub transactions_claim_validator_fee: u64,
    /// Number of times we unstaked from an inactive validator.
    pub transactions_unstake_from_inactive_validator: u64,
    /// Number of times we removed a validator.
    pub transactions_remove_validator: u64,
}

/// The exposition text of the counters, character for character.
pub open spec fn spec_prometheus(m: MaintenanceMetrics) -> Seq<char> {
    spec_counter_block(
        "solido_maintenance_polls_total"@,
        "Number of times we checked if there is maintenance to perform, since launch."@,
        m.polls as int,
    ) + spec_counter_block(
        "solido_maintenance_errors_total"@,
        "Number of times we encountered an error while trying to perform maintenance, since launch."@,
        m.errors as int,
    )
        + "# HELP solido_maintenance_transactions_total Number of maintenance transactions executed, since launch.\n# TYPE solido_maintenance_transactions_total counter\n"@
        + spec_labeled_line(
        "solido_maintenance_transactions_total"@,
        "StakeDeposit"@,
        m.transactions_stake_deposit as int,
    ) + spec_labeled_line(
        "solido_maintenance_transactions_total"@,
        "UpdateExchangeRate"@,
        m.transactions_update_exchange_rate as int,
    ) + spec_labeled_line(
        "solido_maintenance_transactions_total"@,
        "WithdrawInactiveStake"@,
        m.transactions_withdraw_inactive_stake as int,
    ) + spec_labeled_line(
        "solido_maintenance_transactions_total"@,
        "CollectValidatorFee"@,
        m.transactions_collect_validator_fee as int,
    ) + spec_labeled_line(
        "solido_maintenance_transactions_total"@,
        "MergeStake"@,
        m.transactions_merge_stake as int,
    ) + spec_labeled_line(
        "solido_maintenance_transactions_total"@,
        "ClaimValidatorFee"@,
        m.transactions_claim_validator_fee as int,
    ) + spec_labeled_line(
        "solido_maintenance_transactions_total"@,
        "UnstakeFromInactiveValidator"@,
        m.transactions_unstake_from_inactive_validator as int,
    ) + spec_labeled_line(
        "solido_maintenance_transactions_total"@,
        "RemoveValidator"@,
        m.transactions_remove_validator as int,
    )
}

impl MaintenanceMetrics {
    /// All counters at zero.
    pub fn new() -> (m: MaintenanceMetrics)
        ensures
            m == (MaintenanceMetrics {
                polls: 0,
                errors: 0,
                transactions_stake_deposit: 0,
                transactions_update_exchange_rate: 0,
                transactions_withdraw_inactive_stake: 0,
                transactions_collect_validator_fee: 0,
                transactions_merge_stake: 0,
                transactions_claim_validator_fee: 0,
                transactions_unstake_from_inactive_validator: 0,
                transactions_remove_validator: 0,
            }),
    {
        MaintenanceMetrics {
            polls: 0,
            errors: 0,
            transactions_stake_deposit: 0,
            transactions_update_exchange_rate: 0,
            transactions_withdraw_inactive_stake: 0,
            transactions_collect_validator_fee: 0,
            transactions_merge_stake: 0,
            transactions_claim_validator_fee: 0,
            transactions_unstake_from_inactive_validator: 0,
            transactions_remove_validator: 0,
        }
    }

    /// Serialize the counters in the text exposition format.
    pub fn write_prometheus(&self) -> (out: String)
        ensures
            out@ == spec_prometheus(*self),
    {
        let mut out = String::new();
        append_counter_block(
            &mut out,
            "solido_maintenance_polls_total",
            "Number of times we checked if there is maintenance to perform, since launch.",
            self.polls,
        );
        append_counter_block(
            &mut out,
            "solido_maintenance_errors_total",
            "Number of times we encountered an error while trying to perform maintenance, since launch.",
            self.errors,
        );
        out.append(
            "# HELP solido_maintenance_transactions_total Number of maintenance transactions executed, since launch.\n# TYPE solido_maintenance_transactions_total counter\n",
        );
        append_labeled_line(
            &mut out,
            "solido_maintenance_transactions_total",
            "StakeDeposit",
            self.transactions_stake_deposit,
        );
        append_labeled_line(
            &mut out,
            "solido_maintenance_transactions_total",
            "UpdateExchangeRate",
            self.transactions_update_exchange_rate,
        );
        append_labeled_line(
            &mut out,
            "solido_maintenance_transactions_total",
            "WithdrawInactiveStake",
            self.transactions_withdraw_inactive_stake,
        );
        append_labeled_line(
            &mut out,
            "solido_maintenance_transactions_total",
            "CollectValidatorFee",
            self.transactions_collect_validator_fee,
        );
        append_labeled_line(
            &mut out,
            "solido_maintenance_transactions_total",
            "MergeStake",
            self.transactions_merge_stake,
        );
        append_labeled_line(
            &mut out,
            "solido_maintenance_transactions_total",
            "ClaimValidatorFee",
            self.transactions_claim_validator_fee,
        );
        append_labeled_line(
            &mut out,
            "solido_maintenance_transactions_total",
            "UnstakeFromInactiveValidator",
            self.transactions_unstake_from_inactive_validator,
        );
        append_labeled_line(
            &mut out,
            "solido_maintenance_transactions_total",
            "RemoveValidator",
            self.transactions_remove_validator,
        );
        proof {
            assert(out@ =~= spec_prometheus(*self));
        }
        out
    }
}

} // verus!
