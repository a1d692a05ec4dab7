//! Logic for keeping the stake pool balanced.
//!
//! Targets a uniform distribution of the total stake over all active
//! validators: every active validator gets the floor of an equal share, the
//! remainder is handed out one lamport at a time to the earliest active
//! validators, and inactive validators (those being removed) get a target of
//! zero.

use vstd::prelude::*;

verus! {

/// An amount of lamports, the ledger's smallest stake unit.
#[derive(Clone, Copy, PartialEq, Eq, Structural, Debug)]
pub struct Lamports(pub u64);

/// One validator of the pool: its address, whether it still takes stake, and
/// the stake currently delegated to it.
#[derive(Clone, Copy, PartialEq, Eq, Structural, Debug)]
pub struct Validator {
    pub pubkey: u64,
    pub active: bool,
    pub stake_accounts_balance: Lamports,
}

#[derive(Clone, Copy, PartialEq, Eq, Structural, Debug)]
pub enum BalanceError {
    /// A validator had to be selected, but no active validator exists.
    NoActiveValidators,
    /// Adding up the balances overflowed the lamport type.
    CalculationFailure,
}

/// Sum of all delegated balances.
pub open spec fn sum_balances(vs: Seq<Validator>) -> int
    decreases vs.len(),
{
    if vs.len() == 0 {
        0
    } else {
        sum_balances(vs.drop_last()) + vs.last().stake_accounts_balance.0
    }
}

/// Number of active validators.
pub open spec fn active_count(vs: Seq<Validator>) -> int
    decreases vs.len(),
{
    if vs.len() == 0 {
        0
    } else {
        active_count(vs.drop_last()) + if vs.last().active {
            1int
        } else {
            0int
        }
    }
}

/// Number of active validators strictly before index `i`.
pub open spec fn active_rank(vs: Seq<Validator>, i: int) -> int {
    active_count(vs.take(i))
}

/// The total stake to distribute: everything already delegated plus the
/// undelegated reserve.
pub open spec fn spec_total(undelegated: Lamports, vs: Seq<Validator>) -> int {
    undelegated.0 + sum_balances(vs)
}

/// The equal share of every active validator, rounded down.
pub open spec fn spec_share(vs: Seq<Validator>, total: int) -> int {
    total / active_count(vs)
}

/// What rounding the share down left over; strictly less than the number of
/// active validators.
pub open spec fn spec_remainder(vs: Seq<Validator>, total: int) -> int {
    total % active_count(vs)
}

/// The target balance of validator `i`: zero if inactive, otherwise the
/// equal share, plus one extra lamport for the earliest `spec_remainder`
/// active validators.
pub open spec fn spec_target(vs: Seq<Validator>, total: int, i: int) -> int {
    if vs[i].active {
        spec_share(vs, total) + if active_rank(vs, i) < spec_remainder(vs, total) {
            1int
        } else {
            0int
        }
    } else {
        0
    }
}

/// Sum of a sequence of lamport amounts.
pub open spec fn sum_lamports(ts: Seq<Lamports>) -> int
    decreases ts.len(),
{
    if ts.len() == 0 {
        0
    } else {
        sum_lamports(ts.drop_last()) + ts.last().0
    }
}

/// How far validator `i` is below its target, clamped at zero.
pub open spec fn spec_deficit(vs: Seq<Validator>, ts: Seq<Lamports>, i: int) -> int {
    if ts[i].0 > vs[i].stake_accounts_balance.0 {
        ts[i].0 - vs[i].stake_accounts_balance.0
    } else {
        0
    }
}

pub open spec fn has_active(vs: Seq<Validator>) -> bool {
    exists|i: int| 0 <= i < vs.len() && vs[i].active
}

/// Compute the ideal stake balance for each validator.
///
/// The validator order in the result is the same as in `validators`. The
/// targets of the active validators sum to the total stake exactly; see
/// [`lemma_target_balance_properties`].
pub fn get_target_balance(undelegated_lamports: Lamports, validators: &Vec<Validator>) -> (r:
    Result<Vec<Lamports>, BalanceError>)
    ensures
        spec_total(undelegated_lamports, validators@) > u64::MAX ==> (r matches Err(e) && e
            == BalanceError::CalculationFailure),
        spec_total(undelegated_lamports, validators@) <= u64::MAX && active_count(validators@)
            == 0 ==> (r matches Err(e) && e == BalanceError::NoActiveValidators),
        spec_total(undelegated_lamports, validators@) <= u64::MAX && active_count(validators@)
            >= 1 ==> (r matches Ok(targets) && targets@.len() == validators@.len()
            && forall|i: int|
            0 <= i < validators@.len() ==> (#[trigger] targets@[i]).0 == spec_target(
                validators@,
                spec_total(undelegated_lamports, validators@),
                i,
            )),
{
    let ghost vs = validators@;
    let n_validators = validators.len();

    // First pass: add up the balances and count the active validators.
    let mut total: u64 = undelegated_lamports.0;
    let mut num_active: u64 = 0;
    let mut idx: usize = 0;
    while idx < n_validators
        invariant
            n_validators == vs.len(),
            idx <= n_validators,
            vs == validators@,
            total == undelegated_lamports.0 + sum_balances(vs.take(idx as int)),
            num_active == active_count(vs.take(idx as int)),
            num_active <= idx,
        decreases n_validators - idx,
    {
        proof {
            lemma_take_step(vs, idx as int);
        }
        match total.checked_add(validators[idx].stake_accounts_balance.0) {
            Some(t) => {
                total = t;
            },
            None => {
                proof {
                    lemma_sum_balances_take_le(vs, idx as int + 1);
                }
                return Err(BalanceError::CalculationFailure);
            },
        }
        if validators[idx].active {
            num_active = num_active + 1;
        }
        idx = idx + 1;
    }
    proof {
        assert(vs.take(n_validators as int) =~= vs);
    }

    // No active validators: there is nobody to delegate to.
    if num_active == 0 {
        return Err(BalanceError::NoActiveValidators);
    }

    let share: u64 = total / num_active;
    let rem: u64 = total % num_active;
    let ghost total_spec = spec_total(undelegated_lamports, vs);

    // Second pass: the equal share for every active validator, one extra
    // lamport for the first `rem` of them, zero for inactive ones.
    let mut target_balance: Vec<Lamports> = Vec::new();
    let mut rank: u64 = 0;
    let mut idx2: usize = 0;
    while idx2 < n_validators
        invariant
            n_validators == vs.len(),
            idx2 <= n_validators,
            vs == validators@,
            total == total_spec,
            num_active == active_count(vs),
            num_active >= 1,
            share == spec_share(vs, total_spec),
            rem == spec_remainder(vs, total_spec),
            target_balance@.len() == idx2,
            rank == active_rank(vs, idx2 as int),
            rank <= idx2,
            forall|j: int|
                0 <= j < idx2 ==> (#[trigger] target_balance@[j]).0 == spec_target(
                    vs,
                    total_spec,
                    j,
                ),
        decreases n_validators - idx2,
    {
        proof {
            lemma_take_step(vs, idx2 as int);
        }
        let t: u64 = if validators[idx2].active {
            if rank < rem {
                proof {
                    lemma_share_has_headroom(total as int, num_active as int);
                }
                share + 1
            } else {
                share
            }
        } else {
            0
        };
        target_balance.push(Lamports(t));
        if validators[idx2].active {
            rank = rank + 1;
        }
        idx2 = idx2 + 1;
    }

    Ok(target_balance)
}

/// Given the validators and their target balances, return the index of the
/// one furthest below its target, and the amount by which it is below.
///
/// When no validator is below its target, the result is the first active
/// validator, with a deficit of zero. Ties go to the earliest index, so the
/// result depends on nothing but the inputs.
pub fn get_validator_furthest_below_target(validators: &Vec<Validator>, target_balance: &Vec<
    Lamports>) -> (r: (usize, Lamports))
    requires
        validators@.len() == target_balance@.len(),
        has_active(validators@),
    ensures
        0 <= r.0 < validators@.len(),
        r.1.0 == spec_deficit(validators@, target_balance@, r.0 as int),
        forall|j: int|
            0 <= j < validators@.len() ==> spec_deficit(validators@, target_balance@, j) <= r.1.0,
        r.1.0 > 0 ==> forall|j: int|
            0 <= j < r.0 ==> spec_deficit(validators@, target_balance@, j) < r.1.0,
        r.1.0 == 0 ==> validators@[r.0 as int].active && forall|j: int|
            0 <= j < r.0 ==> !validators@[j].active,
{
    let n = validators.len();

    // The fallback, when no validator is below its target, is the first
    // active validator.
    let mut index: usize = 0;
    while index < n && !validators[index].active
        invariant
            index <= n,
            n == validators@.len(),
            forall|j: int| 0 <= j < index ==> !validators@[j].active,
        decreases n - index,
    {
        index = index + 1;
    }
    assert(index < n) by {
        let w = choose|i: int| 0 <= i < validators@.len() && validators@[i].active;
        assert(!(index == n)) by {
            if index == n {
                assert(!validators@[w].active);
            }
        }
    }

    let mut amount: u64 = 0;
    let mut i: usize = 0;
    while i < n
        invariant
            i <= n,
            n == validators@.len() == target_balance@.len(),
            0 <= index < n,
            forall|j: int| 0 <= j < i ==> spec_deficit(validators@, target_balance@, j) <= amount,
            amount > 0 ==> index < i && amount == spec_deficit(
                validators@,
                target_balance@,
                index as int,
            ) && forall|j: int|
                0 <= j < index ==> spec_deficit(validators@, target_balance@, j) < amount,
            amount == 0 ==> validators@[index as int].active && forall|j: int|
                0 <= j < index ==> !validators@[j].active,
        decreases n - i,
    {
        let target = target_balance[i].0;
        let balance = validators[i].stake_accounts_balance.0;
        let amount_below: u64 = if target > balance {
            target - balance
        } else {
            0
        };
        if amount_below > amount {
            amount = amount_below;
            index = i;
        }
        i = i + 1;
    }

    (index, Lamports(amount))
}

/// The validator to withdraw from: the one with the highest balance. Ties
/// break by scan order, so of several equally high ones the earliest wins.
/// Fails only when the pool has no validators at all.
pub fn get_validator_to_withdraw(validators: &Vec<Validator>) -> (r: Result<usize, BalanceError>)
    ensures
        validators@.len() == 0 ==> (r matches Err(e) && e == BalanceError::NoActiveValidators),
        validators@.len() > 0 ==> (r matches Ok(i) && 0 <= i < validators@.len() && (forall|j: int|
            0 <= j < validators@.len() ==> validators@[j].stake_accounts_balance.0
                <= validators@[i as int].stake_accounts_balance.0) && (forall|j: int|
            0 <= j < i ==> validators@[j].stake_accounts_balance.0
                < validators@[i as int].stake_accounts_balance.0)),
{
    let n = validators.len();
    if n == 0 {
        return Err(BalanceError::NoActiveValidators);
    }
    let mut best: usize = 0;
    let mut i: usize = 1;
    while i < n
        invariant
            1 <= i <= n,
            n == validators@.len(),
            0 <= best < i,
            forall|j: int|
                0 <= j < i ==> validators@[j].stake_accounts_balance.0 <= validators@[best as int].stake_accounts_balance.0,
            forall|j: int|
                0 <= j < best ==> validators@[j].stake_accounts_balance.0 < validators@[best as int].stake_accounts_balance.0,
        decreases n - i,
    {
        if validators[i].stake_accounts_balance.0 > validators[best].stake_accounts_balance.0 {
            best = i;
        }
        i = i + 1;
    }
    Ok(best)
}

/// Sum of the first `k` target balances, as `spec_target` gives them.
spec fn sum_target_prefix(vs: Seq<Validator>, total: int, k: int) -> int
    decreases k,
{
    if k <= 0 {
        0
    } else {
        sum_target_prefix(vs, total, k - 1) + spec_target(vs, total, k - 1)
    }
}

/// How many of the first `k` validators receive the extra lamport.
pub open spec fn bonus_count(vs: Seq<Validator>, total: int, k: int) -> int
    decreases k,
{
    if k <= 0 {
        0
    } else {
        bonus_count(vs, total, k - 1) + if vs[k - 1].active && active_rank(vs, k - 1)
            < spec_remainder(vs, total) {
            1int
        } else {
            0int
        }
    }
}

pub open spec fn spec_min(a: int, b: int) -> int {
    if a < b {
        a
    } else {
        b
    }
}

/// Among the first `k` validators, the targets add up to one share per
/// active validator plus one extra lamport for each of the first
/// `spec_remainder` of them.
proof fn lemma_prefix_characterization(vs: Seq<Validator>, total: int, k: int)
    requires
        active_count(vs) >= 1,
        total >= 0,
        0 <= k <= vs.len(),
    ensures
        sum_target_prefix(vs, total, k) == spec_share(vs, total) * active_rank(vs, k) + spec_min(
            spec_remainder(vs, total),
            active_rank(vs, k),
        ),
        bonus_count(vs, total, k) == spec_min(spec_remainder(vs, total), active_rank(vs, k)),
    decreases k,
{
    let share = spec_share(vs, total);
    let rem = spec_remainder(vs, total);
    vstd::arithmetic::div_mod::lemma_mod_bound(total, active_count(vs));
    if k == 0 {
        assert(vs.take(0) =~= Seq::<Validator>::empty());
        assert(share * 0 == 0) by (nonlinear_arith);
    } else {
        lemma_prefix_characterization(vs, total, k - 1);
        lemma_take_step(vs, k - 1);
        let c = active_rank(vs, k - 1);
        if vs[k - 1].active {
            assert(active_rank(vs, k) == c + 1);
            assert(share * (c + 1) == share * c + share) by (nonlinear_arith);
        }
    }
}

/// Ranks count the active validators in order: an active validator has a
/// strictly smaller rank than everything after it.
pub proof fn lemma_rank_monotone(vs: Seq<Validator>, a: int, b: int)
    requires
        0 <= a <= b <= vs.len(),
    ensures
        active_rank(vs, a) <= active_rank(vs, b),
        a < b && vs[a].active ==> active_rank(vs, a) < active_rank(vs, b),
    decreases b - a,
{
    if a < b {
        lemma_take_step(vs, a);
        lemma_rank_monotone(vs, a + 1, b);
    }
}

/// Pointwise equal targets have the same prefix sums.
proof fn lemma_sum_lamports_pointwise(vs: Seq<Validator>, total: int, targets: Seq<Lamports>, k: int)
    requires
        targets.len() == vs.len(),
        forall|i: int|
            0 <= i < vs.len() ==> (#[trigger] targets[i]).0 == spec_target(vs, total, i),
        0 <= k <= targets.len(),
    ensures
        sum_lamports(targets.take(k)) == sum_target_prefix(vs, total, k),
    decreases k,
{
    if k == 0 {
        assert(targets.take(0) =~= Seq::<Lamports>::empty());
    } else {
        lemma_sum_lamports_pointwise(vs, total, targets, k - 1);
        assert(targets.take(k).drop_last() =~= targets.take(k - 1));
        assert(targets.take(k).last() == targets[k - 1]);
    }
}

/// The law of the target distribution. For any validator collection with at
/// least one active validator, and any total that fits the lamport type, a
/// target sequence that follows `spec_target`:
///
/// * adds up to the total exactly — nothing is lost to rounding;
/// * gives every inactive validator exactly zero;
/// * gives every active validator at least the rounded-down equal share;
/// * gives the extra lamport to an active validator if and only if its rank
///   is below the remainder, so exactly `spec_remainder` validators — the
///   earliest active ones — receive one more than the share.
pub proof fn lemma_target_balance_properties(
    undelegated: Lamports,
    vs: Seq<Validator>,
    targets: Seq<Lamports>,
)
    requires
        active_count(vs) >= 1,
        spec_total(undelegated, vs) <= u64::MAX,
        targets.len() == vs.len(),
        forall|i: int|
            0 <= i < vs.len() ==> (#[trigger] targets[i]).0 == spec_target(
                vs,
                spec_total(undelegated, vs),
                i,
            ),
    ensures
        sum_lamports(targets) == spec_total(undelegated, vs),
        forall|i: int| 0 <= i < vs.len() && !vs[i].active ==> (#[trigger] targets[i]).0 == 0,
        forall|i: int|
            0 <= i < vs.len() && vs[i].active ==> (#[trigger] targets[i]).0 >= spec_share(
                vs,
                spec_total(undelegated, vs),
            ),
        forall|i: int|
            0 <= i < vs.len() ==> ((#[trigger] targets[i]).0 == spec_share(
                vs,
                spec_total(undelegated, vs),
            ) + 1 <==> vs[i].active && active_rank(vs, i) < spec_remainder(
                vs,
                spec_total(undelegated, vs),
            )),
        bonus_count(vs, spec_total(undelegated, vs), vs.len() as int) == spec_remainder(
            vs,
            spec_total(undelegated, vs),
        ),
{
    let total = spec_total(undelegated, vs);
    let n = active_count(vs);
    let share = spec_share(vs, total);
    let rem = spec_remainder(vs, total);
    lemma_sum_balances_nonneg(vs);
    vstd::arithmetic::div_mod::lemma_mod_bound(total, n);
    assert(share >= 0) by (nonlinear_arith)
        requires
            total >= 0,
            n >= 1,
            share == total / n,
    ;
    lemma_prefix_characterization(vs, total, vs.len() as int);
    lemma_sum_lamports_pointwise(vs, total, targets, vs.len() as int);
    assert(targets.take(targets.len() as int) =~= targets);
    assert(vs.take(vs.len() as int) =~= vs);
    assert(active_rank(vs, vs.len() as int) == n);
    assert(share * n + rem == total) by {
        vstd::arithmetic::div_mod::lemma_fundamental_div_mod(total, n);
        assert(n * share == share * n) by (nonlinear_arith);
    }
}

/// Balances are amounts, so their sum is never negative.
proof fn lemma_sum_balances_nonneg(vs: Seq<Validator>)
    ensures
        sum_balances(vs) >= 0,
    decreases vs.len(),
{
    if vs.len() > 0 {
        lemma_sum_balances_nonneg(vs.drop_last());
    }
}

/// Extending a prefix by one element adds that element's contribution.
proof fn lemma_take_step(vs: Seq<Validator>, k: int)
    requires
        0 <= k < vs.len(),
    ensures
        sum_balances(vs.take(k + 1)) == sum_balances(vs.take(k)) + vs[k].stake_accounts_balance.0,
        active_count(vs.take(k + 1)) == active_count(vs.take(k)) + if vs[k].active {
            1int
        } else {
            0int
        },
{
    assert(vs.take(k + 1).drop_last() =~= vs.take(k));
    assert(vs.take(k + 1).last() == vs[k]);
}

/// Balances are non-negative, so a prefix sum never exceeds the full sum.
proof fn lemma_sum_balances_take_le(vs: Seq<Validator>, k: int)
    requires
        0 <= k <= vs.len(),
    ensures
        sum_balances(vs.take(k)) <= sum_balances(vs),
    decreases vs.len() - k,
{
    if k == vs.len() {
        assert(vs.take(k) =~= vs);
    } else {
        lemma_take_step(vs, k);
        lemma_sum_balances_take_le(vs, k + 1);
    }
}

/// With at least one lamport left over after rounding, there are at least
/// two active validators, so the rounded share is at most half the total and
/// one more lamport cannot overflow.
proof fn lemma_share_has_headroom(total: int, num_active: int)
    requires
        0 <= total <= u64::MAX,
        num_active >= 1,
        total % num_active >= 1,
    ensures
        total / num_active + 1 <= u64::MAX,
{
    assert(num_active >= 2) by {
        if num_active == 1 {
            assert(total % 1int == 0) by (nonlinear_arith);
        }
    }
    assert(total / num_active + 1 <= u64::MAX) by (nonlinear_arith)
        requires
            0 <= total <= u64::MAX,
            num_active >= 2,
    ;
}

} // verus!
