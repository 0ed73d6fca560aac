use staking_ledger::account::Account;
use staking_ledger::clock::{wait_epochs, LedgerClock};
use staking_ledger::error::Error;
use staking_ledger::scenario::{init_contracts, test_deposit_stake_unstake, test_withdraw};
use staking_ledger::staking_farm::{
    deposit, deposit_and_stake, get_account, get_account_staked_balance,
    get_account_total_balance, get_account_unstaked_balance, is_account_unstaked_balance_available,
    is_contract_can_withdraw, stake, stake_all, unstake, unstake_all, withdraw, withdraw_all,
    StakingFarm,
};
use staking_ledger::types::Ratio;
use staking_ledger::units::near;
use staking_ledger::validator::{
    validator_get_account, validator_get_account_staked_balance,
    validator_get_account_total_balance, validator_get_account_unstaked_balance,
    validator_is_account_unstaked_balance_available,
};

const ALICE: &str = "alice.test.near";
const BOB: &str = "bob.test.near";
const FARM: &str = "farm.test.near";

fn fresh_farm() -> StakingFarm {
    init_contracts("owner.test.near", "validator.test.near", FARM)
}

/// Alice with 1000 NEAR staked, nothing unstaked and no unstake behind her.
fn farm_with_all_staked() -> StakingFarm {
    let mut farm = fresh_farm();
    deposit(&mut farm, ALICE, near(1000)).unwrap();
    stake_all(&mut farm, ALICE).unwrap();
    farm
}

#[test]
fn setup_is_empty_and_carries_the_fees() {
    let farm = fresh_farm();
    assert_eq!(farm.account_id, FARM);
    assert_eq!(farm.owner, "owner.test.near");
    assert_eq!(farm.reward_fee_fraction, Ratio { numerator: 1, denominator: 2 });
    assert_eq!(farm.next_reward_fee_fraction, Ratio { numerator: 1, denominator: 2 });
    assert_eq!(farm.validator.account_id, "validator.test.near");
    assert_eq!(farm.validator.owner, "owner.test.near");
    assert_eq!(farm.validator.reward_fee_fraction, Ratio { numerator: 1, denominator: 100 });
    assert_eq!(farm.validator.delegator, FARM);
    assert_eq!(farm.validator.delegation, Account::new());
    assert!(farm.accounts.is_empty());
    assert!(farm.farms.is_empty());
    assert_eq!(get_account_total_balance(&farm, ALICE), 0);
}

#[test]
fn deposit_of_1000_is_unstaked_and_can_be_withdrawn() {
    let mut farm = fresh_farm();
    deposit(&mut farm, ALICE, near(1000)).unwrap();

    let account = get_account(&farm, ALICE, 0);
    assert_eq!(account.account_id, ALICE);
    assert_eq!(account.unstaked_balance, near(1000));
    assert_eq!(account.staked_balance, 0);
    assert_eq!(account.can_withdraw, true);
    assert_eq!(get_account_total_balance(&farm, ALICE), near(1000));
    assert_eq!(validator_get_account_total_balance(&farm.validator, FARM), near(1000));
    assert_eq!(validator_get_account_staked_balance(&farm.validator, FARM), 0);
    assert_eq!(validator_get_account_unstaked_balance(&farm.validator, FARM), near(1000));
}

#[test]
fn stake_200_of_1000() {
    let mut farm = fresh_farm();
    deposit(&mut farm, ALICE, near(1000)).unwrap();
    stake(&mut farm, ALICE, near(200)).unwrap();

    assert_eq!(get_account_staked_balance(&farm, ALICE), near(200));
    assert_eq!(get_account_unstaked_balance(&farm, ALICE), near(800));
    assert_eq!(get_account(&farm, ALICE, 0).can_withdraw, true);
    assert_eq!(validator_get_account_staked_balance(&farm.validator, FARM), near(200));
    assert_eq!(validator_get_account_unstaked_balance(&farm.validator, FARM), near(800));
}

#[test]
fn stake_all_leaves_nothing_unstaked() {
    let mut farm = fresh_farm();
    deposit(&mut farm, ALICE, near(1000)).unwrap();
    stake(&mut farm, ALICE, near(200)).unwrap();
    stake_all(&mut farm, ALICE).unwrap();

    assert_eq!(get_account_staked_balance(&farm, ALICE), near(1000));
    assert_eq!(get_account_unstaked_balance(&farm, ALICE), 0);
    assert_eq!(validator_get_account_staked_balance(&farm.validator, FARM), near(1000));
    assert_eq!(validator_get_account_unstaked_balance(&farm.validator, FARM), 0);
    // nothing is unstaked, so nothing can be withdrawn
    assert_eq!(get_account(&farm, ALICE, 0).can_withdraw, false);
}

#[test]
fn unstake_100_of_1000_staked_locks_the_unstaked_balance() {
    let mut farm = farm_with_all_staked();
    unstake(&mut farm, ALICE, near(100), 7).unwrap();

    let account = get_account(&farm, ALICE, 7);
    assert_eq!(account.staked_balance, near(900));
    assert_eq!(account.unstaked_balance, near(100));
    assert_eq!(account.can_withdraw, false);
    assert_eq!(validator_get_account_staked_balance(&farm.validator, FARM), near(900));
    assert_eq!(validator_get_account_unstaked_balance(&farm.validator, FARM), near(100));
    assert_eq!(validator_is_account_unstaked_balance_available(&farm.validator, FARM, 7), false);
}

#[test]
fn unlocked_after_five_epochs_and_withdraw_200() {
    let mut clock = LedgerClock::new(500, 1_000_000_000, 0).unwrap();
    let mut farm = farm_with_all_staked();
    unstake(&mut farm, ALICE, near(100), clock.current_epoch()).unwrap();
    unstake_all(&mut farm, ALICE, clock.current_epoch()).unwrap();
    assert_eq!(get_account_unstaked_balance(&farm, ALICE), near(1000));
    deposit_and_stake(&mut farm, ALICE, near(1000)).unwrap();

    wait_epochs(&mut clock, 5).unwrap();
    let epoch: u64 = clock.current_epoch();
    assert_eq!(epoch, 5);
    assert_eq!(get_account(&farm, ALICE, epoch).can_withdraw, true);

    let staked_before: u128 = get_account_staked_balance(&farm, ALICE);
    let unstaked_before: u128 = get_account_unstaked_balance(&farm, ALICE);
    withdraw(&mut farm, ALICE, near(200), epoch).unwrap();

    assert_eq!(unstaked_before - get_account_unstaked_balance(&farm, ALICE), near(200));
    assert_eq!(get_account_unstaked_balance(&farm, ALICE), near(800));
    assert_eq!(get_account_staked_balance(&farm, ALICE), staked_before);
    assert_eq!(get_account(&farm, ALICE, epoch).can_withdraw, true);
    assert_eq!(validator_get_account_staked_balance(&farm.validator, FARM), near(1000));
    assert_eq!(validator_get_account_unstaked_balance(&farm.validator, FARM), near(800));
}

#[test]
fn withdraw_all_after_a_partial_withdrawal() {
    let mut farm = farm_with_all_staked();
    unstake_all(&mut farm, ALICE, 0).unwrap();
    deposit_and_stake(&mut farm, ALICE, near(1000)).unwrap();
    withdraw(&mut farm, ALICE, near(200), 5).unwrap();

    let prev_total_balance: u128 = get_account_total_balance(&farm, ALICE);
    withdraw_all(&mut farm, ALICE, 5).unwrap();

    let account = get_account(&farm, ALICE, 5);
    assert_eq!(account.unstaked_balance, 0);
    assert_eq!(account.staked_balance, near(1000));
    assert_eq!(prev_total_balance - get_account_total_balance(&farm, ALICE), near(800));
    assert_eq!(validator_get_account_unstaked_balance(&farm.validator, FARM), 0);
}

#[test]
fn first_scenario_ends_with_1000_staked_and_1000_locked() {
    let mut farm = fresh_farm();
    assert_eq!(test_deposit_stake_unstake(ALICE, &mut farm, 3), Ok(()));

    let account = get_account(&farm, ALICE, 3);
    assert_eq!(account.staked_balance, near(1000));
    assert_eq!(account.unstaked_balance, near(1000));
    assert_eq!(account.can_withdraw, false);
    assert_eq!(
        farm.validator.delegation,
        Account {
            staked_balance: near(1000),
            unstaked_balance: near(1000),
            unstake_epoch: Some(3),
        }
    );
    assert_eq!(farm.accounts.len(), 1);
    assert_eq!(farm.accounts[0].value, farm.validator.delegation);
}

#[test]
fn first_scenario_leaves_other_users_alone() {
    let mut farm = fresh_farm();
    deposit(&mut farm, BOB, near(5)).unwrap();
    // the scenario starts from a delegation without balance
    let mut other = fresh_farm();
    assert_eq!(test_deposit_stake_unstake(ALICE, &mut other, 0), Ok(()));
    assert_eq!(get_account_total_balance(&other, BOB), 0);
    assert_eq!(get_account_total_balance(&farm, BOB), near(5));
}

#[test]
fn both_scenarios_in_turn() {
    let mut clock = LedgerClock::new(500, 1_000_000_000, 0).unwrap();
    let mut farm = fresh_farm();
    assert_eq!(test_deposit_stake_unstake(ALICE, &mut farm, clock.current_epoch()), Ok(()));
    assert_eq!(test_withdraw(&mut clock, ALICE, &mut farm), Ok(()));

    assert_eq!(clock.current_epoch(), 5);
    assert_eq!(clock.height, 2500);
    assert_eq!(get_account_unstaked_balance(&farm, ALICE), 0);
    assert_eq!(get_account_staked_balance(&farm, ALICE), near(1000));
    assert_eq!(get_account_total_balance(&farm, ALICE), near(1000));
    assert_eq!(validator_get_account_staked_balance(&farm.validator, FARM), near(1000));
    assert_eq!(validator_get_account_unstaked_balance(&farm.validator, FARM), 0);
}

#[test]
fn second_scenario_stops_at_a_stalled_clock() {
    // an epoch of two million blocks is not over after ten thousand bursts
    let mut clock = LedgerClock::new(2_000_000, 1, 0).unwrap();
    let mut farm = fresh_farm();
    test_deposit_stake_unstake(ALICE, &mut farm, 0).unwrap();

    assert_eq!(test_withdraw(&mut clock, ALICE, &mut farm), Err(Error::ClockStalled));
    assert_eq!(clock.height, 1_000_000);
    assert_eq!(get_account_unstaked_balance(&farm, ALICE), near(1000));
    assert_eq!(get_account_staked_balance(&farm, ALICE), near(1000));
}

#[test]
fn total_is_the_sum_after_every_operation() {
    let mut farm = fresh_farm();
    let check = |farm: &StakingFarm| {
        assert_eq!(
            get_account_total_balance(farm, ALICE),
            get_account_staked_balance(farm, ALICE) + get_account_unstaked_balance(farm, ALICE)
        );
    };
    check(&farm);
    deposit(&mut farm, ALICE, 70).unwrap();
    check(&farm);
    stake(&mut farm, ALICE, 30).unwrap();
    check(&farm);
    unstake(&mut farm, ALICE, 10, 2).unwrap();
    check(&farm);
    withdraw(&mut farm, ALICE, 50, 6).unwrap();
    check(&farm);
    assert_eq!(get_account_total_balance(&farm, ALICE), 20);
}

#[test]
fn only_deposit_and_withdraw_change_the_total() {
    let mut farm = fresh_farm();
    deposit(&mut farm, ALICE, 100).unwrap();
    assert_eq!(get_account_total_balance(&farm, ALICE), 100);
    stake(&mut farm, ALICE, 60).unwrap();
    assert_eq!(get_account_total_balance(&farm, ALICE), 100);
    stake_all(&mut farm, ALICE).unwrap();
    assert_eq!(get_account_total_balance(&farm, ALICE), 100);
    unstake(&mut farm, ALICE, 25, 1).unwrap();
    assert_eq!(get_account_total_balance(&farm, ALICE), 100);
    unstake_all(&mut farm, ALICE, 1).unwrap();
    assert_eq!(get_account_total_balance(&farm, ALICE), 100);
    deposit_and_stake(&mut farm, ALICE, 11).unwrap();
    assert_eq!(get_account_total_balance(&farm, ALICE), 111);
    withdraw(&mut farm, ALICE, 40, 5).unwrap();
    assert_eq!(get_account_total_balance(&farm, ALICE), 71);
    withdraw_all(&mut farm, ALICE, 5).unwrap();
    assert_eq!(get_account_total_balance(&farm, ALICE), 11);
}

#[test]
fn stake_all_twice_is_stake_all_once() {
    let mut farm = fresh_farm();
    deposit(&mut farm, ALICE, 1000).unwrap();
    deposit(&mut farm, BOB, 10).unwrap();
    stake_all(&mut farm, ALICE).unwrap();
    let alice = farm.accounts[0].value;
    let bob = farm.accounts[1].value;
    let delegation = farm.validator.delegation;

    assert_eq!(stake_all(&mut farm, ALICE), Ok(()));

    assert_eq!(farm.accounts.len(), 2);
    assert_eq!(farm.accounts[0].value, alice);
    assert_eq!(farm.accounts[1].value, bob);
    assert_eq!(farm.validator.delegation, delegation);
    assert_eq!(alice.unstaked_balance, 0);
}

#[test]
fn validator_holds_the_sum_of_all_users() {
    let mut farm = fresh_farm();
    let users: [&str; 3] = [ALICE, BOB, "carol.test.near"];
    let check = |farm: &StakingFarm| {
        let mut staked: u128 = 0;
        let mut unstaked: u128 = 0;
        for user in users.iter() {
            staked += get_account_staked_balance(farm, user);
            unstaked += get_account_unstaked_balance(farm, user);
        }
        assert_eq!(validator_get_account_staked_balance(&farm.validator, FARM), staked);
        assert_eq!(validator_get_account_unstaked_balance(&farm.validator, FARM), unstaked);
    };
    deposit(&mut farm, ALICE, 500).unwrap();
    check(&farm);
    deposit(&mut farm, BOB, 300).unwrap();
    check(&farm);
    stake(&mut farm, ALICE, 200).unwrap();
    check(&farm);
    deposit_and_stake(&mut farm, "carol.test.near", 90).unwrap();
    check(&farm);
    stake_all(&mut farm, BOB).unwrap();
    check(&farm);
    unstake(&mut farm, BOB, 120, 1).unwrap();
    check(&farm);
    unstake_all(&mut farm, "carol.test.near", 2).unwrap();
    check(&farm);
    withdraw(&mut farm, ALICE, 300, 6).unwrap();
    check(&farm);
    withdraw_all(&mut farm, BOB, 6).unwrap();
    check(&farm);
    assert_eq!(validator_get_account_staked_balance(&farm.validator, FARM), 380);
    assert_eq!(validator_get_account_unstaked_balance(&farm.validator, FARM), 90);
}

#[test]
fn a_new_unstake_locks_the_whole_unstaked_balance_again() {
    let mut farm = farm_with_all_staked();
    unstake(&mut farm, ALICE, 100, 0).unwrap();
    assert_eq!(is_account_unstaked_balance_available(&farm, ALICE, 3), false);
    assert_eq!(is_account_unstaked_balance_available(&farm, ALICE, 4), true);

    // one more unit unstaked at epoch 4 and all 101 wait until epoch 8
    unstake(&mut farm, ALICE, 1, 4).unwrap();
    assert_eq!(is_account_unstaked_balance_available(&farm, ALICE, 4), false);
    assert_eq!(withdraw(&mut farm, ALICE, 100, 7), Err(Error::WithdrawalLocked));
    assert_eq!(is_account_unstaked_balance_available(&farm, ALICE, 8), true);
    assert_eq!(withdraw(&mut farm, ALICE, 101, 8), Ok(()));
}

#[test]
fn users_have_their_own_locks_but_share_the_one_of_the_delegation() {
    let mut farm = fresh_farm();
    deposit_and_stake(&mut farm, ALICE, 100).unwrap();
    deposit_and_stake(&mut farm, BOB, 100).unwrap();
    unstake(&mut farm, ALICE, 40, 0).unwrap();
    unstake(&mut farm, BOB, 10, 3).unwrap();

    // at epoch 4 Alice is unlocked and Bob is not
    assert_eq!(is_account_unstaked_balance_available(&farm, ALICE, 4), true);
    assert_eq!(is_account_unstaked_balance_available(&farm, BOB, 4), false);
    // but Bob's unstake restarted the delay of the delegation
    assert_eq!(is_contract_can_withdraw(&farm, 4), false);
    assert_eq!(withdraw(&mut farm, ALICE, 40, 4), Err(Error::LedgerCallFailed));
    assert_eq!(get_account_unstaked_balance(&farm, ALICE), 40);
    assert_eq!(validator_get_account_unstaked_balance(&farm.validator, FARM), 50);

    assert_eq!(is_contract_can_withdraw(&farm, 7), true);
    assert_eq!(withdraw(&mut farm, ALICE, 40, 7), Ok(()));
    assert_eq!(get_account_unstaked_balance(&farm, ALICE), 0);
    assert_eq!(validator_get_account_unstaked_balance(&farm.validator, FARM), 10);
}

#[test]
fn refused_operations_name_their_reason_and_change_nothing() {
    let mut farm = fresh_farm();
    deposit(&mut farm, ALICE, 100).unwrap();
    stake(&mut farm, ALICE, 60).unwrap();

    assert_eq!(stake(&mut farm, ALICE, 41), Err(Error::InsufficientUnstakedBalance));
    assert_eq!(unstake(&mut farm, ALICE, 61, 0), Err(Error::InsufficientStakedBalance));
    assert_eq!(withdraw(&mut farm, ALICE, 41, 0), Err(Error::InsufficientUnstakedBalance));
    assert_eq!(withdraw(&mut farm, BOB, 0, 0), Err(Error::WithdrawalLocked));
    assert_eq!(withdraw_all(&mut farm, BOB, 0), Err(Error::WithdrawalLocked));
    assert_eq!(deposit(&mut farm, BOB, u128::MAX), Err(Error::LedgerCallFailed));
    assert_eq!(deposit_and_stake(&mut farm, BOB, u128::MAX - 99), Err(Error::LedgerCallFailed));

    assert_eq!(get_account_staked_balance(&farm, ALICE), 60);
    assert_eq!(get_account_unstaked_balance(&farm, ALICE), 40);
    assert_eq!(get_account_total_balance(&farm, BOB), 0);
    assert_eq!(farm.accounts.len(), 1);
    assert_eq!(
        farm.validator.delegation,
        Account { staked_balance: 60, unstaked_balance: 40, unstake_epoch: None }
    );
}

#[test]
fn the_largest_total_still_fits() {
    let mut farm = fresh_farm();
    deposit(&mut farm, ALICE, u128::MAX - 1).unwrap();
    deposit_and_stake(&mut farm, BOB, 1).unwrap();
    assert_eq!(deposit(&mut farm, ALICE, 1), Err(Error::LedgerCallFailed));
    assert_eq!(validator_get_account_total_balance(&farm.validator, FARM), u128::MAX);
    assert_eq!(get_account_total_balance(&farm, ALICE), u128::MAX - 1);
}

#[test]
fn validator_shows_only_the_farm() {
    let mut farm = fresh_farm();
    deposit_and_stake(&mut farm, ALICE, 9).unwrap();
    unstake(&mut farm, ALICE, 4, 2).unwrap();

    let shown = validator_get_account(&farm.validator, FARM, 6);
    assert_eq!(shown.account_id, FARM);
    assert_eq!(shown.staked_balance, 5);
    assert_eq!(shown.unstaked_balance, 4);
    assert_eq!(shown.can_withdraw, true);
    assert_eq!(validator_get_account(&farm.validator, FARM, 5).can_withdraw, false);

    let stranger = validator_get_account(&farm.validator, ALICE, 6);
    assert_eq!(stranger.account_id, ALICE);
    assert_eq!(stranger.staked_balance, 0);
    assert_eq!(stranger.unstaked_balance, 0);
    assert_eq!(stranger.can_withdraw, false);
    assert_eq!(validator_get_account_total_balance(&farm.validator, ALICE), 0);
}

#[test]
fn a_farm_needs_a_validator_that_records_it_with_nothing() {
    let fee = Ratio { numerator: 1, denominator: 2 };
    let other = staking_ledger::validator::ValidatorLedger::new("v", "o", fee, "someone.else");
    assert!(StakingFarm::new(FARM, "o", fee, other).is_none());

    let mut used = staking_ledger::validator::ValidatorLedger::new("v", "o", fee, FARM);
    used.deposit(1).unwrap();
    assert!(StakingFarm::new(FARM, "o", fee, used).is_none());

    let unused = staking_ledger::validator::ValidatorLedger::new("v", "o", fee, FARM);
    assert!(StakingFarm::new(FARM, "o", fee, unused).is_some());
}
