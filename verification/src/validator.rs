use crate::account::{Account, Operation};
use crate::error::Error;
use crate::types::{HumanReadableAccount, Ratio};
use vstd::prelude::*;

verus! {

/// The validator's record of its one delegator, the staking farm: the
/// aggregate of everything the farm's users hold. Only the farm writes it.
#[derive(Debug)]
pub struct ValidatorLedger {
    /// The account of the validator itself.
    pub account_id: String,
    pub owner: String,
    /// The share of the staking rewards that the validator keeps.
    pub reward_fee_fraction: Ratio,
    /// The account the delegation belongs to.
    pub delegator: String,
    /// The aggregate balances, with the one unbonding clock they share.
    pub delegation: Account,
}

impl ValidatorLedger {
    pub open spec fn wf(&self) -> bool {
        self.delegation.wf()
    }

    /// The account that `user` has at the validator: the delegation for the
    /// delegator, the zero account for anyone else.
    pub open spec fn account_of(&self, user: Seq<char>) -> Account {
        if user == self.delegator@ {
            self.delegation
        } else {
            Account::zero()
        }
    }

    /// Everything but the balances is the same in `self` and `other`.
    pub open spec fn same_setup(&self, other: ValidatorLedger) -> bool {
        &&& self.account_id == other.account_id
        &&& self.owner == other.owner
        &&& self.reward_fee_fraction == other.reward_fee_fraction
        &&& self.delegator == other.delegator
    }

    /// A validator at which `delegator` holds nothing yet.
    pub fn new(account_id: &str, owner: &str, reward_fee_fraction: Ratio, delegator: &str) -> (v:
        ValidatorLedger)
        ensures
            v.wf(),
            v.account_id@ == account_id@,
            v.owner@ == owner@,
            v.reward_fee_fraction == reward_fee_fraction,
            v.delegator@ == delegator@,
            v.delegation == Account::zero(),
    {
        ValidatorLedger {
            account_id: account_id.to_owned(),
            owner: owner.to_owned(),
            reward_fee_fraction,
            delegator: delegator.to_owned(),
            delegation: Account::new(),
        }
    }

    /// What a call on the validator must have done, given the step it stands
    /// for: on success the delegation is the step's result, on failure the
    /// step's error is returned; nothing else changes either way.
    pub open spec fn stepped(
        before: ValidatorLedger,
        step: Result<Account, Error>,
        after: ValidatorLedger,
        r: Result<(), Error>,
    ) -> bool {
        match step {
            Ok(delegation) => {
                &&& r is Ok
                &&& after.delegation == delegation
                &&& after.same_setup(before)
            },
            Err(e) => r == Err::<(), Error>(e) && after == before,
        }
    }

    /// Carries out what `operation` forwards to the validator at `epoch`:
    /// the step it takes on the delegation, for the amount that it moved on
    /// the farm.
    pub fn apply(&mut self, operation: Operation, amount: u128, epoch: u64) -> (r: Result<
        (),
        Error,
    >)
        requires
            old(self).wf(),
        ensures
            final(self).wf(),
            ValidatorLedger::stepped(
                *old(self),
                operation.step(old(self).delegation, amount, epoch),
                *final(self),
                r,
            ),
    {
        match self.delegation.try_step(operation, amount, epoch) {
            Ok(delegation) => {
                self.delegation = delegation;
                Ok(())
            },
            Err(e) => Err(e),
        }
    }

    /// Credits `amount` to the unstaked balance of the delegation.
    pub fn deposit(&mut self, amount: u128) -> (r: Result<(), Error>)
        requires
            old(self).wf(),
        ensures
            final(self).wf(),
            ValidatorLedger::stepped(
                *old(self),
                old(self).delegation.step_deposit(amount),
                *final(self),
                r,
            ),
    {
        self.apply(Operation::Deposit { amount }, amount, 0)
    }

    /// Stakes `amount` of what the delegation holds unstaked.
    pub fn stake(&mut self, amount: u128) -> (r: Result<(), Error>)
        requires
            old(self).wf(),
        ensures
            final(self).wf(),
            ValidatorLedger::stepped(
                *old(self),
                old(self).delegation.step_stake(amount),
                *final(self),
                r,
            ),
    {
        self.apply(Operation::Stake { amount }, amount, 0)
    }

    /// Unstakes `amount` at `epoch`, which restarts the unbonding delay of
    /// the whole delegation.
    pub fn unstake(&mut self, amount: u128, epoch: u64) -> (r: Result<(), Error>)
        requires
            old(self).wf(),
        ensures
            final(self).wf(),
            ValidatorLedger::stepped(
                *old(self),
                old(self).delegation.step_unstake(amount, epoch),
                *final(self),
                r,
            ),
    {
        self.apply(Operation::Unstake { amount }, amount, epoch)
    }

    /// Takes `amount` out of what the delegation holds unstaked, at `epoch`.
    pub fn withdraw(&mut self, amount: u128, epoch: u64) -> (r: Result<(), Error>)
        requires
            old(self).wf(),
        ensures
            final(self).wf(),
            ValidatorLedger::stepped(
                *old(self),
                old(self).delegation.step_withdraw(amount, epoch),
                *final(self),
                r,
            ),
    {
        self.apply(Operation::Withdraw { amount }, amount, epoch)
    }

    fn lookup(&self, user: &str) -> (a: Account)
        ensures
            a == self.account_of(user@),
    {
        if user.to_owned() == self.delegator {
            self.delegation
        } else {
            Account::new()
        }
    }
}

pub fn validator_get_account_unstaked_balance(validator: &ValidatorLedger, user: &str) -> (b: u128)
    ensures
        b == validator.account_of(user@).unstaked_balance,
{
    validator.lookup(user).unstaked_balance
}

pub fn validator_get_account_staked_balance(validator: &ValidatorLedger, user: &str) -> (b: u128)
    ensures
        b == validator.account_of(user@).staked_balance,
{
    validator.lookup(user).staked_balance
}

pub fn validator_get_account_total_balance(validator: &ValidatorLedger, user: &str) -> (b: u128)
    requires
        validator.wf(),
    ensures
        b == validator.account_of(user@).total(),
{
    validator.lookup(user).total_balance()
}

pub fn validator_is_account_unstaked_balance_available(
    validator: &ValidatorLedger,
    user: &str,
    epoch: u64,
) -> (b: bool)
    ensures
        b == validator.account_of(user@).withdrawable(epoch),
{
    validator.lookup(user).can_withdraw(epoch)
}

pub fn validator_get_account(validator: &ValidatorLedger, user: &str, epoch: u64) -> (a:
    HumanReadableAccount)
    ensures
        a.account_id@ == user@,
        a.unstaked_balance == validator.account_of(user@).unstaked_balance,
        a.staked_balance == validator.account_of(user@).staked_balance,
        a.can_withdraw == validator.account_of(user@).withdrawable(epoch),
{
    let account = validator.lookup(user);
    HumanReadableAccount {
        account_id: user.to_owned(),
        unstaked_balance: account.unstaked_balance,
        staked_balance: account.staked_balance,
        can_withdraw: account.can_withdraw(epoch),
    }
}

} // verus!
