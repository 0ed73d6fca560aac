use staking_ledger::account::Account;
use staking_ledger::clock::LedgerClock;
use staking_ledger::farming::{claim, create_farm, stop_farm};
use staking_ledger::register::Entry;
use staking_ledger::reward::RewardFarm;
use staking_ledger::scenario::{init_contracts, test_deposit_stake_unstake};
use staking_ledger::staking_farm::{deposit, deposit_and_stake, unstake, StakingFarm};

const ALICE: &str = "alice.test.near";
const BOB: &str = "bob.test.near";
const TOKEN: &str = "token.test.near";

fn busy_farm() -> StakingFarm {
    let mut farm = init_contracts("owner.test.near", "validator.test.near", "farm.test.near");
    deposit_and_stake(&mut farm, ALICE, 50).unwrap();
    deposit(&mut farm, BOB, 150).unwrap();
    unstake(&mut farm, ALICE, 20, 3).unwrap();
    create_farm(&mut farm, "First", TOKEN, 1000, 100, 200).unwrap();
    create_farm(&mut farm, "Second", TOKEN, 10, 0, 50).unwrap();
    claim(&mut farm, ALICE, 0, TOKEN, None, 150).unwrap();
    stop_farm(&mut farm, 1, 20).unwrap();
    farm
}

#[test]
fn what_the_library_makes_is_well_formed() {
    assert!(init_contracts("o", "v", "f").is_well_formed());
    assert!(busy_farm().is_well_formed());
    let mut farm = init_contracts("o", "v", "f");
    test_deposit_stake_unstake(ALICE, &mut farm, 0).unwrap();
    assert!(farm.is_well_formed());
    assert!(Account::new().is_well_formed());
    assert!(RewardFarm::new(0, "x", TOKEN, 1, 1, 2).unwrap().is_well_formed());
    assert!(LedgerClock::new(1, 0, 0).unwrap().is_well_formed());
}

#[test]
fn an_account_whose_total_does_not_fit() {
    let a = Account { staked_balance: u128::MAX, unstaked_balance: 0, unstake_epoch: None };
    assert!(a.is_well_formed());
    let a = Account { staked_balance: u128::MAX, unstaked_balance: 1, unstake_epoch: None };
    assert!(!a.is_well_formed());
    let a = Account { staked_balance: 1 << 127, unstaked_balance: 1 << 127, unstake_epoch: None };
    assert!(!a.is_well_formed());
}

#[test]
fn a_clock_without_blocks_in_an_epoch() {
    let clock = LedgerClock { height: 0, timestamp: 0, epoch_length: 0, block_time: 1 };
    assert!(!clock.is_well_formed());
}

#[test]
fn a_farm_that_lists_a_user_twice() {
    let mut farm = busy_farm();
    farm.accounts.push(Entry { account_id: ALICE.to_string(), value: Account::new() });
    assert!(!farm.is_well_formed());
    let mut farm = busy_farm();
    farm.accounts.push(Entry { account_id: "carol".to_string(), value: Account::new() });
    assert!(farm.is_well_formed());
}

#[test]
fn a_farm_that_is_not_reconciled() {
    let mut farm = busy_farm();
    farm.validator.delegation.staked_balance += 1;
    assert!(!farm.is_well_formed());

    let mut farm = busy_farm();
    farm.validator.delegation.unstaked_balance -= 1;
    assert!(!farm.is_well_formed());

    let mut farm = busy_farm();
    farm.accounts[1].value.unstaked_balance += 1;
    assert!(!farm.is_well_formed());

    // the unbonding clocks are not part of the reconciliation
    let mut farm = busy_farm();
    farm.validator.delegation.unstake_epoch = None;
    assert!(farm.is_well_formed());
}

#[test]
fn a_farm_whose_balances_do_not_fit() {
    let mut farm = init_contracts("o", "v", "f");
    farm.accounts.push(Entry {
        account_id: ALICE.to_string(),
        value: Account { staked_balance: u128::MAX, unstaked_balance: 1, unstake_epoch: None },
    });
    farm.validator.delegation.staked_balance = u128::MAX;
    farm.validator.delegation.unstaked_balance = 1;
    assert!(!farm.is_well_formed());

    let mut farm = init_contracts("o", "v", "f");
    deposit_and_stake(&mut farm, ALICE, u128::MAX).unwrap();
    assert!(farm.is_well_formed());
    farm.accounts.push(Entry {
        account_id: BOB.to_string(),
        value: Account { staked_balance: 1, unstaked_balance: 0, unstake_epoch: None },
    });
    assert!(!farm.is_well_formed());
}

#[test]
fn a_farm_that_delegates_under_another_name() {
    let mut farm = busy_farm();
    farm.account_id = "someone.else".to_string();
    assert!(!farm.is_well_formed());
    let mut farm = busy_farm();
    farm.validator.delegator = "someone.else".to_string();
    assert!(!farm.is_well_formed());
}

#[test]
fn reward_farms_out_of_order() {
    let mut farm = busy_farm();
    farm.farms.swap(0, 1);
    assert!(!farm.is_well_formed());
    let mut farm = busy_farm();
    farm.farms[1].farm_id = 7;
    assert!(!farm.is_well_formed());
    let mut farm = busy_farm();
    farm.farms.remove(0);
    assert!(!farm.is_well_formed());
}

#[test]
fn reward_farms_that_are_not_well_formed() {
    let good = || RewardFarm::new(0, "x", TOKEN, 100, 10, 20).unwrap();

    let mut reward = good();
    reward.amount = 0;
    assert!(!reward.is_well_formed());

    let mut reward = good();
    reward.end_date = 10;
    assert!(!reward.is_well_formed());

    let mut reward = good();
    reward.distributed = 101;
    assert!(!reward.is_well_formed());

    let mut reward = good();
    reward.distributed = 100;
    assert!(reward.is_well_formed());
    reward.claims.push(Entry { account_id: ALICE.to_string(), value: 60 });
    reward.claims.push(Entry { account_id: BOB.to_string(), value: 40 });
    assert!(reward.is_well_formed());
    reward.claims.push(Entry { account_id: ALICE.to_string(), value: 0 });
    assert!(!reward.is_well_formed());

    let mut reward = good();
    reward.distributed = 5;
    reward.claims.push(Entry { account_id: ALICE.to_string(), value: 6 });
    assert!(!reward.is_well_formed());

    let mut farm = busy_farm();
    farm.farms[0].distributed = 2000;
    assert!(!farm.is_well_formed());
}

#[test]
fn a_register_lists_each_account_once() {
    let mut entries: Vec<Entry<u8>> = Vec::new();
    assert!(staking_ledger::register::all_distinct(&entries));
    assert_eq!(staking_ledger::register::find(&entries, &ALICE.to_string()), None);

    assert_eq!(staking_ledger::register::put(&mut entries, ALICE.to_string(), 1), 0);
    assert_eq!(staking_ledger::register::put(&mut entries, BOB.to_string(), 2), 1);
    assert_eq!(staking_ledger::register::put(&mut entries, ALICE.to_string(), 3), 0);
    assert_eq!(entries.len(), 2);
    assert_eq!(entries[0].account_id, ALICE);
    assert_eq!(entries[0].value, 3);
    assert_eq!(entries[1].account_id, BOB);
    assert_eq!(entries[1].value, 2);
    assert_eq!(staking_ledger::register::find(&entries, &BOB.to_string()), Some(1));
    assert_eq!(staking_ledger::register::find(&entries, &"carol".to_string()), None);
    assert!(staking_ledger::register::all_distinct(&entries));

    entries.push(Entry { account_id: BOB.to_string(), value: 9 });
    assert!(!staking_ledger::register::all_distinct(&entries));
    assert_eq!(staking_ledger::register::find(&entries, &BOB.to_string()), Some(1));
}
