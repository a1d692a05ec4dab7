use solido_maintainer::balance::{
    get_target_balance, get_validator_furthest_below_target, get_validator_to_withdraw,
    BalanceError, Lamports, Validator,
};

/// A pool of `n` validators, all active, all with a zero balance.
fn new_fill_default(n: usize) -> Vec<Validator> {
    (0..n)
        .map(|i| Validator { pubkey: i as u64, active: true, stake_accounts_balance: Lamports(0) })
        .collect()
}

#[test]
fn get_target_balance_works_for_single_validator() {
    // 100 Lamports delegated + 50 undelegated => 150 per validator target.
    let mut validators = new_fill_default(1);
    validators[0].stake_accounts_balance = Lamports(100);
    let undelegated_stake = Lamports(50);
    let targets = get_target_balance(undelegated_stake, &validators).unwrap();
    assert_eq!(targets[0], Lamports(150));

    // With only one validator, that one is the least balanced. It is
    // missing the 50 undelegated Lamports.
    assert_eq!(
        get_validator_furthest_below_target(&validators, &targets),
        (0, Lamports(50))
    );
}

#[test]
fn get_target_balance_works_for_integer_multiple() {
    // 200 Lamports delegated + 50 undelegated => 125 per validator target.
    let mut validators = new_fill_default(2);
    validators[0].stake_accounts_balance = Lamports(101);
    validators[1].stake_accounts_balance = Lamports(99);

    let undelegated_stake = Lamports(50);
    let targets = get_target_balance(undelegated_stake, &validators).unwrap();
    assert_eq!(targets, vec![Lamports(125), Lamports(125)]);

    // The second validator is further away from its target.
    assert_eq!(
        get_validator_furthest_below_target(&validators, &targets),
        (1, Lamports(26))
    );
}

#[test]
fn get_target_balance_works_for_non_integer_multiple() {
    // 200 Lamports delegated + 51 undelegated => 125 per validator target,
    // and one validator gets 1 more.
    let mut validators = new_fill_default(2);
    validators[0].stake_accounts_balance = Lamports(101);
    validators[1].stake_accounts_balance = Lamports(99);

    let undelegated_stake = Lamports(51);
    let targets = get_target_balance(undelegated_stake, &validators).unwrap();
    assert_eq!(targets, vec![Lamports(126), Lamports(125)]);

    // The second validator is further from its target, by one Lamport.
    assert_eq!(
        get_validator_furthest_below_target(&validators, &targets),
        (1, Lamports(26))
    );
}

#[test]
fn get_target_balance_already_balanced() {
    let mut validators = new_fill_default(2);
    validators[0].stake_accounts_balance = Lamports(50);
    validators[1].stake_accounts_balance = Lamports(50);

    let undelegated_stake = Lamports(0);
    let targets = get_target_balance(undelegated_stake, &validators).unwrap();
    assert_eq!(targets, vec![Lamports(50), Lamports(50)]);

    assert_eq!(
        get_validator_furthest_below_target(&validators, &targets),
        (0, Lamports(0))
    );
}

#[test]
fn get_target_balance_works_with_inactive_for_non_integer_multiple() {
    let mut validators = new_fill_default(3);
    validators[0].stake_accounts_balance = Lamports(101);
    validators[1].stake_accounts_balance = Lamports(0);
    validators[1].active = false;
    validators[2].stake_accounts_balance = Lamports(99);

    let undelegated_stake = Lamports(51);
    let targets = get_target_balance(undelegated_stake, &validators).unwrap();
    assert_eq!(targets, vec![Lamports(126), Lamports(0), Lamports(125)]);

    assert_eq!(
        get_validator_furthest_below_target(&validators, &targets),
        (2, Lamports(26))
    );
}

#[test]
fn get_target_balance_works_with_inactive_for_integer_multiple() {
    // 500 Lamports delegated, but only two active validators out of three.
    // All target should be divided equally within the active validators.
    let mut validators = new_fill_default(3);
    validators[0].stake_accounts_balance = Lamports(100);
    validators[1].stake_accounts_balance = Lamports(100);
    validators[1].active = false;
    validators[2].stake_accounts_balance = Lamports(300);

    let undelegated_stake = Lamports(0);
    let targets = get_target_balance(undelegated_stake, &validators).unwrap();
    assert_eq!(targets, vec![Lamports(250), Lamports(0), Lamports(250)]);

    assert_eq!(
        get_validator_furthest_below_target(&validators, &targets),
        (0, Lamports(150))
    );
}

#[test]
fn get_target_balance_all_inactive() {
    // No active validators exist.
    let mut validators = new_fill_default(3);
    validators[0].stake_accounts_balance = Lamports(1);
    validators[1].stake_accounts_balance = Lamports(2);
    validators[2].stake_accounts_balance = Lamports(3);
    validators[0].active = false;
    validators[1].active = false;
    validators[2].active = false;

    let undelegated_stake = Lamports(0);
    let result = get_target_balance(undelegated_stake, &validators);
    assert!(result.is_err());
}

#[test]
fn get_target_balance_no_preference_but_some_inactive() {
    // Every validator is exactly at its target, no validator is below.
    // But the validator furthest below target should still be an active one,
    // not the inactive one.
    let mut validators = new_fill_default(2);
    validators[0].stake_accounts_balance = Lamports(0);
    validators[1].stake_accounts_balance = Lamports(10);
    validators[0].active = false;

    let undelegated_stake = Lamports(0);
    let targets = get_target_balance(undelegated_stake, &validators).unwrap();
    assert_eq!(
        get_validator_furthest_below_target(&validators, &targets),
        (1, Lamports(0)),
    );
}

#[test]
fn get_target_balance_all_inactive_reports_no_active_validators() {
    let mut validators = new_fill_default(2);
    validators[0].active = false;
    validators[1].active = false;
    let result = get_target_balance(Lamports(7), &validators);
    assert_eq!(result, Err(BalanceError::NoActiveValidators));
}

#[test]
fn get_target_balance_overflow_is_a_calculation_failure() {
    let mut validators = new_fill_default(2);
    validators[0].stake_accounts_balance = Lamports(u64::MAX);
    validators[1].stake_accounts_balance = Lamports(1);
    let result = get_target_balance(Lamports(0), &validators);
    assert_eq!(result, Err(BalanceError::CalculationFailure));
}

#[test]
fn targets_sum_to_total_and_remainder_goes_to_earliest_active() {
    // 7 validators, 2 inactive. Total = 1003 + 20 = 1023; 5 active, so the
    // share is 204 and the remainder 3: the three earliest active
    // validators get 205.
    let mut validators = new_fill_default(7);
    let balances = [100u64, 3, 200, 0, 300, 150, 250];
    for (v, b) in validators.iter_mut().zip(balances.iter()) {
        v.stake_accounts_balance = Lamports(*b);
    }
    validators[1].active = false;
    validators[3].active = false;

    let targets = get_target_balance(Lamports(20), &validators).unwrap();
    assert_eq!(
        targets,
        vec![
            Lamports(205),
            Lamports(0),
            Lamports(205),
            Lamports(0),
            Lamports(205),
            Lamports(204),
            Lamports(204),
        ]
    );
    let total: u64 = targets.iter().map(|t| t.0).sum();
    assert_eq!(total, 1023);
}

#[test]
fn get_validator_to_withdraw_breaks_ties_by_scan_order() {
    let mut validators = new_fill_default(3);
    validators[0].stake_accounts_balance = Lamports(5);
    validators[1].stake_accounts_balance = Lamports(9);
    validators[2].stake_accounts_balance = Lamports(9);
    assert_eq!(get_validator_to_withdraw(&validators), Ok(1));
}

#[test]
fn get_validator_to_withdraw_fails_on_an_empty_pool() {
    let validators: Vec<Validator> = Vec::new();
    assert_eq!(
        get_validator_to_withdraw(&validators),
        Err(BalanceError::NoActiveValidators)
    );
}
