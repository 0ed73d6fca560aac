use crate::account::Account;
use crate::clock::{wait_epochs, LedgerClock};
use crate::error::Error;
use crate::staking_farm::{
    deposit, deposit_and_stake, get_account, get_account_staked_balance,
    get_account_total_balance, get_account_unstaked_balance, is_contract_can_withdraw,
    lemma_user_within_delegation, stake, stake_all, unstake, unstake_all, withdraw, withdraw_all,
    StakingFarm,
};
use crate::types::Ratio;
use crate::units::{near, ONE_NEAR};
use crate::validator::{
    validator_get_account_staked_balance, validator_get_account_total_balance,
    validator_get_account_unstaked_balance, ValidatorLedger,
};
use vstd::prelude::*;

verus! {

/// Sets up the two ledgers as a scenario starts from them: a validator that
/// keeps one hundredth of the rewards, and a farm that delegates to it and
/// keeps one half, both owned by `owner` and without any balance.
pub fn init_contracts(owner: &str, validator_id: &str, farm_id: &str) -> (farm: StakingFarm)
    ensures
        farm.wf(),
        farm.account_id@ == farm_id@,
        farm.owner@ == owner@,
        farm.reward_fee_fraction == (Ratio { numerator: 1, denominator: 2 }),
        farm.next_reward_fee_fraction == farm.reward_fee_fraction,
        farm.accounts@.len() == 0,
        farm.farms@.len() == 0,
        farm.validator.account_id@ == validator_id@,
        farm.validator.owner@ == owner@,
        farm.validator.reward_fee_fraction == (Ratio { numerator: 1, denominator: 100 }),
        farm.validator.delegator@ == farm_id@,
        farm.validator.delegation == Account::zero(),
        forall|user: Seq<char>| farm.account_of(user) == Account::zero(),
{
    let validator = ValidatorLedger::new(
        validator_id,
        owner,
        Ratio { numerator: 1, denominator: 100 },
        farm_id,
    );
    let farm = StakingFarm::new(farm_id, owner, Ratio { numerator: 1, denominator: 2 }, validator);
    farm.unwrap()
}

/// The first scenario: a user who holds nothing on a farm that holds nothing
/// deposits 1000 NEAR, stakes 200 of them and then all, unstakes 100 and then
/// all at `epoch`, and at last deposits another 1000 and stakes them at once.
///
/// After each step the user's balances, the answers of the three balance
/// queries and the validator's record of the farm are what the step must
/// leave. Nothing here can fail, and at the end the user has 1000 NEAR
/// staked and 1000 unstaked, locked since `epoch`, and so has the farm at the
/// validator.
pub fn test_deposit_stake_unstake(user: &str, farm: &mut StakingFarm, epoch: u64) -> (r: Result<
    (),
    Error,
>)
    requires
        old(farm).wf(),
        old(farm).account_of(user@) == Account::zero(),
        old(farm).validator.delegation == Account::zero(),
    ensures
        r is Ok,
        final(farm).wf(),
        final(farm).same_setup(*old(farm)),
        final(farm).updates(
            *old(farm),
            user@,
            Account {
                staked_balance: (1000 * ONE_NEAR) as u128,
                unstaked_balance: (1000 * ONE_NEAR) as u128,
                unstake_epoch: Some(epoch),
            },
        ),
        final(farm).validator.delegation == final(farm).account_of(user@),
{
    deposit(farm, user, near(1000))?;

    let account = get_account(farm, user, epoch);
    let total_balance = get_account_total_balance(farm, user);
    let staked_balance = get_account_staked_balance(farm, user);
    let unstaked_balance = get_account_unstaked_balance(farm, user);
    let validator_total_balance = validator_get_account_total_balance(
        &farm.validator,
        farm.account_id.as_str(),
    );
    let validator_staked_balance = validator_get_account_staked_balance(
        &farm.validator,
        farm.account_id.as_str(),
    );
    let validator_unstaked_balance = validator_get_account_unstaked_balance(
        &farm.validator,
        farm.account_id.as_str(),
    );

    assert(total_balance == 1000 * ONE_NEAR);
    assert(account.staked_balance == 0);
    assert(account.unstaked_balance == 1000 * ONE_NEAR);
    assert(account.can_withdraw == true);
    assert(account.staked_balance == staked_balance);
    assert(account.unstaked_balance == unstaked_balance);
    assert(validator_total_balance == 1000 * ONE_NEAR);
    assert(validator_staked_balance == 0);
    assert(validator_unstaked_balance == 1000 * ONE_NEAR);

    stake(farm, user, near(200))?;

    let account = get_account(farm, user, epoch);
    let staked_balance = get_account_staked_balance(farm, user);
    let unstaked_balance = get_account_unstaked_balance(farm, user);
    let validator_staked_balance = validator_get_account_staked_balance(
        &farm.validator,
        farm.account_id.as_str(),
    );
    let validator_unstaked_balance = validator_get_account_unstaked_balance(
        &farm.validator,
        farm.account_id.as_str(),
    );

    assert(account.staked_balance == 200 * ONE_NEAR);
    assert(account.unstaked_balance == 800 * ONE_NEAR);
    assert(account.can_withdraw == true);
    assert(account.staked_balance == staked_balance);
    assert(account.unstaked_balance == unstaked_balance);
    assert(validator_staked_balance == 200 * ONE_NEAR);
    assert(validator_unstaked_balance == 800 * ONE_NEAR);

    stake_all(farm, user)?;

    let account = get_account(farm, user, epoch);
    let staked_balance = get_account_staked_balance(farm, user);
    let unstaked_balance = get_account_unstaked_balance(farm, user);
    let validator_staked_balance = validator_get_account_staked_balance(
        &farm.validator,
        farm.account_id.as_str(),
    );
    let validator_unstaked_balance = validator_get_account_unstaked_balance(
        &farm.validator,
        farm.account_id.as_str(),
    );

    assert(account.staked_balance == 1000 * ONE_NEAR);
    assert(account.unstaked_balance == 0);
    // with nothing unstaked there is nothing to withdraw
    assert(account.can_withdraw == false);
    assert(account.staked_balance == staked_balance);
    assert(account.unstaked_balance == unstaked_balance);
    assert(validator_staked_balance == 1000 * ONE_NEAR);
    assert(validator_unstaked_balance == 0);

    unstake(farm, user, near(100), epoch)?;

    let account = get_account(farm, user, epoch);
    let staked_balance = get_account_staked_balance(farm, user);
    let unstaked_balance = get_account_unstaked_balance(farm, user);
    let validator_staked_balance = validator_get_account_staked_balance(
        &farm.validator,
        farm.account_id.as_str(),
    );
    let validator_unstaked_balance = validator_get_account_unstaked_balance(
        &farm.validator,
        farm.account_id.as_str(),
    );

    assert(account.staked_balance == 900 * ONE_NEAR);
    assert(account.unstaked_balance == 100 * ONE_NEAR);
    assert(account.can_withdraw == false);
    assert(account.staked_balance == staked_balance);
    assert(account.unstaked_balance == unstaked_balance);
    assert(validator_staked_balance == 900 * ONE_NEAR);
    assert(validator_unstaked_balance == 100 * ONE_NEAR);

    unstake_all(farm, user, epoch)?;

    let account = get_account(farm, user, epoch);
    let staked_balance = get_account_staked_balance(farm, user);
    let unstaked_balance = get_account_unstaked_balance(farm, user);
    let validator_staked_balance = validator_get_account_staked_balance(
        &farm.validator,
        farm.account_id.as_str(),
    );
    let validator_unstaked_balance = validator_get_account_unstaked_balance(
        &farm.validator,
        farm.account_id.as_str(),
    );

    assert(account.staked_balance == 0);
    assert(account.unstaked_balance == 1000 * ONE_NEAR);
    assert(account.can_withdraw == false);
    assert(account.staked_balance == staked_balance);
    assert(account.unstaked_balance == unstaked_balance);
    assert(validator_staked_balance == 0);
    assert(validator_unstaked_balance == 1000 * ONE_NEAR);

    deposit_and_stake(farm, user, near(1000))?;

    let staked_balance = get_account_staked_balance(farm, user);
    let unstaked_balance = get_account_unstaked_balance(farm, user);

    assert(staked_balance == 1000 * ONE_NEAR);
    assert(unstaked_balance == 1000 * ONE_NEAR);

    Ok(())
}

/// The second scenario: a user whose 1000 unstaked NEAR are locked by an
/// unstake of the current epoch or an earlier one waits five epochs, takes
/// out 200 NEAR and then the rest.
///
/// After the wait the balance is unlocked, for the user and for the farm at
/// the validator; each withdrawal takes exactly its amount out of the
/// unstaked balance and the total, and leaves the staked balance alone. A
/// clock that stalls ends the scenario before any withdrawal.
pub fn test_withdraw(clock: &mut LedgerClock, user: &str, farm: &mut StakingFarm) -> (r: Result<
    (),
    Error,
>)
    requires
        old(clock).wf(),
        old(farm).wf(),
        old(farm).account_of(user@).unstaked_balance == 1000 * ONE_NEAR,
        old(farm).account_of(user@).last_unstaked_by(old(clock).epoch()),
        old(farm).validator.delegation.last_unstaked_by(old(clock).epoch()),
    ensures
        final(clock).wf(),
        final(farm).wf(),
        match old(clock).waited_epochs(5) {
            Ok(c) => {
                &&& r is Ok
                &&& *final(clock) == c
                &&& final(farm).same_setup(*old(farm))
                &&& final(farm).updates(
                    *old(farm),
                    user@,
                    Account { unstaked_balance: 0, ..old(farm).account_of(user@) },
                )
                &&& final(farm).validator.delegation == (Account {
                    unstaked_balance: (old(farm).validator.delegation.unstaked_balance - 1000
                        * ONE_NEAR) as u128,
                    ..old(farm).validator.delegation
                })
            },
            Err(c) => {
                &&& r == Err::<(), Error>(Error::ClockStalled)
                &&& *final(clock) == c
                &&& *final(farm) == *old(farm)
            },
        },
{
    wait_epochs(clock, 5)?;
    let epoch = clock.current_epoch();

    proof {
        lemma_user_within_delegation(*farm, user@);
    }
    let can_withdraw = is_contract_can_withdraw(farm, epoch);
    assert(can_withdraw == true);

    let account = get_account(farm, user, epoch);

    assert(account.can_withdraw == true);
    assert(account.unstaked_balance == 1000 * ONE_NEAR);

    let before_any = get_account_total_balance(farm, user);
    withdraw(farm, user, near(200), epoch)?;

    let account = get_account(farm, user, epoch);
    let total_balance = get_account_total_balance(farm, user);

    assert(account.can_withdraw == true);
    assert(account.unstaked_balance == 800 * ONE_NEAR);
    assert(before_any - total_balance == 200 * ONE_NEAR);

    let prev_total_balance = get_account_total_balance(farm, user);
    withdraw_all(farm, user, epoch)?;

    let account = get_account(farm, user, epoch);
    let total_balance = get_account_total_balance(farm, user);

    // with nothing left unstaked there is nothing to withdraw
    assert(account.can_withdraw == false);
    assert(account.unstaked_balance == 0);
    assert(prev_total_balance - total_balance == 800 * ONE_NEAR);

    Ok(())
}

} // verus!
