use crate::error::Error;
use vstd::prelude::*;

verus! {

/// Number of epochs that must pass after an unstake before the unstaked
/// balance can be withdrawn.
pub const UNBONDING_EPOCHS: u64 = 4;

/// Balances of one holder on one ledger.
///
/// The same shape serves an end user of the farm and the farm's single
/// delegation at the validator. The total balance is not stored: it is the
/// sum of the two balances, so staking and unstaking cannot change it.
#[derive(Clone, Copy, Debug, PartialEq, Eq, Structural)]
pub struct Account {
    /// The balance staked, at a share price of one.
    pub staked_balance: u128,
    /// The balance that is not staked: it can be staked, or withdrawn once
    /// it is unlocked.
    pub unstaked_balance: u128,
    /// The epoch of the most recent unstake, `None` if there was none.
    pub unstake_epoch: Option<u64>,
}

/// An operation of a user on the staking farm.
#[derive(Clone, Copy, Debug, PartialEq, Eq, Structural)]
pub enum Operation {
    Deposit { amount: u128 },
    DepositAndStake { amount: u128 },
    Stake { amount: u128 },
    Unstake { amount: u128 },
    StakeAll,
    UnstakeAll,
    Withdraw { amount: u128 },
    WithdrawAll,
}

impl Operation {
    /// The amount that the operation moves for a user with `account`: the
    /// amount it names, or all of the balance it is about.
    pub open spec fn moved_amount(self, account: Account) -> u128 {
        match self {
            Operation::Deposit { amount } => amount,
            Operation::DepositAndStake { amount } => amount,
            Operation::Stake { amount } => amount,
            Operation::Unstake { amount } => amount,
            Operation::Withdraw { amount } => amount,
            Operation::StakeAll => account.unstaked_balance,
            Operation::UnstakeAll => account.staked_balance,
            Operation::WithdrawAll => account.unstaked_balance,
        }
    }

    /// The step that the operation takes at `epoch` on `target`, the record
    /// of the user or of the delegation, once the amount is known.
    pub open spec fn step(self, target: Account, amount: u128, epoch: u64) -> Result<
        Account,
        Error,
    > {
        match self {
            Operation::Deposit { .. } => target.step_deposit(amount),
            Operation::DepositAndStake { .. } => target.step_deposit_and_stake(amount),
            Operation::Stake { .. } => target.step_stake(amount),
            Operation::StakeAll => target.step_stake(amount),
            Operation::Unstake { .. } => target.step_unstake(amount, epoch),
            Operation::UnstakeAll => target.step_unstake(amount, epoch),
            Operation::Withdraw { .. } => target.step_withdraw(amount, epoch),
            Operation::WithdrawAll => target.step_withdraw(amount, epoch),
        }
    }

    /// The amount that the operation moves for a user with `account`.
    pub fn amount_for(&self, account: &Account) -> (amount: u128)
        ensures
            amount == self.moved_amount(*account),
    {
        match *self {
            Operation::Deposit { amount } => amount,
            Operation::DepositAndStake { amount } => amount,
            Operation::Stake { amount } => amount,
            Operation::Unstake { amount } => amount,
            Operation::Withdraw { amount } => amount,
            Operation::StakeAll => account.unstaked_balance,
            Operation::UnstakeAll => account.staked_balance,
            Operation::WithdrawAll => account.unstaked_balance,
        }
    }
}

impl Account {
    /// The account every holder has before the first deposit.
    pub open spec fn zero() -> Account {
        Account { staked_balance: 0, unstaked_balance: 0, unstake_epoch: None }
    }

    /// The total balance: what is staked and what is not.
    pub open spec fn total(&self) -> int {
        self.staked_balance + self.unstaked_balance
    }

    /// The total balance fits the machine type of an amount.
    pub open spec fn wf(&self) -> bool {
        self.total() <= u128::MAX
    }

    /// The unbonding delay of the most recent unstake is over at `epoch`.
    pub open spec fn unlocked(&self, epoch: u64) -> bool {
        match self.unstake_epoch {
            None => true,
            Some(e) => epoch >= e + UNBONDING_EPOCHS,
        }
    }

    /// The most recent unstake, if there was one, was not after `epoch`.
    pub open spec fn last_unstaked_by(&self, epoch: u64) -> bool {
        match self.unstake_epoch {
            None => true,
            Some(e) => e <= epoch,
        }
    }

    /// There is something to withdraw and it is unlocked at `epoch`.
    pub open spec fn withdrawable(&self, epoch: u64) -> bool {
        self.unstaked_balance > 0 && self.unlocked(epoch)
    }

    /// A deposit credits the unstaked balance. It is refused where the total
    /// would no longer fit.
    pub open spec fn step_deposit(self, amount: u128) -> Result<Account, Error> {
        if self.total() + amount > u128::MAX {
            Err(Error::LedgerCallFailed)
        } else {
            Ok(Account { unstaked_balance: (self.unstaked_balance + amount) as u128, ..self })
        }
    }

    /// Staking moves `amount` from the unstaked to the staked balance.
    pub open spec fn step_stake(self, amount: u128) -> Result<Account, Error> {
        if amount > self.unstaked_balance {
            Err(Error::InsufficientUnstakedBalance)
        } else {
            Ok(
                Account {
                    staked_balance: (self.staked_balance + amount) as u128,
                    unstaked_balance: (self.unstaked_balance - amount) as u128,
                    ..self
                },
            )
        }
    }

    /// Unstaking moves `amount` back and restarts the unbonding delay at
    /// `epoch` for the whole unstaked balance, not only for what was added.
    pub open spec fn step_unstake(self, amount: u128, epoch: u64) -> Result<Account, Error> {
        if amount > self.staked_balance {
            Err(Error::InsufficientStakedBalance)
        } else {
            Ok(
                Account {
                    staked_balance: (self.staked_balance - amount) as u128,
                    unstaked_balance: (self.unstaked_balance + amount) as u128,
                    unstake_epoch: Some(epoch),
                },
            )
        }
    }

    /// Withdrawing takes `amount` out of the unstaked balance, and out of the
    /// ledger. The lock is tested first, then the amount.
    pub open spec fn step_withdraw(self, amount: u128, epoch: u64) -> Result<Account, Error> {
        if !self.withdrawable(epoch) {
            Err(Error::WithdrawalLocked)
        } else if amount > self.unstaked_balance {
            Err(Error::InsufficientUnstakedBalance)
        } else {
            Ok(Account { unstaked_balance: (self.unstaked_balance - amount) as u128, ..self })
        }
    }

    /// A deposit that is staked at once.
    pub open spec fn step_deposit_and_stake(self, amount: u128) -> Result<Account, Error> {
        match self.step_deposit(amount) {
            Ok(a) => a.step_stake(amount),
            Err(e) => Err(e),
        }
    }

    pub fn new() -> (a: Account)
        ensures
            a == Account::zero(),
    {
        Account { staked_balance: 0, unstaked_balance: 0, unstake_epoch: None }
    }

    /// Whether the total balance fits.
    pub fn is_well_formed(&self) -> (b: bool)
        ensures
            b == self.wf(),
    {
        self.staked_balance.checked_add(self.unstaked_balance).is_some()
    }

    pub fn total_balance(&self) -> (t: u128)
        requires
            self.wf(),
        ensures
            t == self.total(),
    {
        self.staked_balance + self.unstaked_balance
    }

    /// Whether the unbonding delay is over at `epoch`.
    pub fn is_unlocked(&self, epoch: u64) -> (b: bool)
        ensures
            b == self.unlocked(epoch),
    {
        match self.unstake_epoch {
            None => true,
            Some(e) => epoch >= e && epoch - e >= UNBONDING_EPOCHS,
        }
    }

    pub fn can_withdraw(&self, epoch: u64) -> (b: bool)
        ensures
            b == self.withdrawable(epoch),
    {
        self.unstaked_balance > 0 && self.is_unlocked(epoch)
    }

    /// The account after `operation` has moved `amount` at `epoch`, the
    /// account itself left as it is.
    pub fn try_step(self, operation: Operation, amount: u128, epoch: u64) -> (r: Result<
        Account,
        Error,
    >)
        requires
            self.wf(),
        ensures
            r == operation.step(self, amount, epoch),
            r matches Ok(a) ==> a.wf(),
    {
        match operation {
            Operation::Deposit { .. } => self.try_deposit(amount),
            Operation::DepositAndStake { .. } => self.try_deposit_and_stake(amount),
            Operation::Stake { .. } => self.try_stake(amount),
            Operation::StakeAll => self.try_stake(amount),
            Operation::Unstake { .. } => self.try_unstake(amount, epoch),
            Operation::UnstakeAll => self.try_unstake(amount, epoch),
            Operation::Withdraw { .. } => self.try_withdraw(amount, epoch),
            Operation::WithdrawAll => self.try_withdraw(amount, epoch),
        }
    }

    /// The account after a deposit, the account itself left as it is.
    pub fn try_deposit(self, amount: u128) -> (r: Result<Account, Error>)
        requires
            self.wf(),
        ensures
            r == self.step_deposit(amount),
            r matches Ok(a) ==> a.wf(),
    {
        if amount > u128::MAX - self.staked_balance - self.unstaked_balance {
            Err(Error::LedgerCallFailed)
        } else {
            Ok(Account { unstaked_balance: self.unstaked_balance + amount, ..self })
        }
    }

    /// The account after staking, the account itself left as it is.
    pub fn try_stake(self, amount: u128) -> (r: Result<Account, Error>)
        requires
            self.wf(),
        ensures
            r == self.step_stake(amount),
            r matches Ok(a) ==> a.wf(),
    {
        if amount > self.unstaked_balance {
            Err(Error::InsufficientUnstakedBalance)
        } else {
            Ok(
                Account {
                    staked_balance: self.staked_balance + amount,
                    unstaked_balance: self.unstaked_balance - amount,
                    ..self
                },
            )
        }
    }

    /// The account after a deposit staked at once, the account itself left
    /// as it is.
    pub fn try_deposit_and_stake(self, amount: u128) -> (r: Result<Account, Error>)
        requires
            self.wf(),
        ensures
            r == self.step_deposit_and_stake(amount),
            r matches Ok(a) ==> a.wf(),
    {
        match self.try_deposit(amount) {
            Ok(a) => a.try_stake(amount),
            Err(e) => Err(e),
        }
    }

    /// The account after unstaking at `epoch`, the account itself left as it
    /// is.
    pub fn try_unstake(self, amount: u128, epoch: u64) -> (r: Result<Account, Error>)
        requires
            self.wf(),
        ensures
            r == self.step_unstake(amount, epoch),
            r matches Ok(a) ==> a.wf(),
    {
        if amount > self.staked_balance {
            Err(Error::InsufficientStakedBalance)
        } else {
            Ok(
                Account {
                    staked_balance: self.staked_balance - amount,
                    unstaked_balance: self.unstaked_balance + amount,
                    unstake_epoch: Some(epoch),
                },
            )
        }
    }

    /// The account after withdrawing at `epoch`, the account itself left as
    /// it is.
    pub fn try_withdraw(self, amount: u128, epoch: u64) -> (r: Result<Account, Error>)
        requires
            self.wf(),
        ensures
            r == self.step_withdraw(amount, epoch),
            r matches Ok(a) ==> a.wf(),
    {
        if !self.can_withdraw(epoch) {
            Err(Error::WithdrawalLocked)
        } else if amount > self.unstaked_balance {
            Err(Error::InsufficientUnstakedBalance)
        } else {
            Ok(Account { unstaked_balance: self.unstaked_balance - amount, ..self })
        }
    }
}

/// Every step leaves an account whose total balance fits: the total, which
/// is the sum of the staked and the unstaked balance, can be asked for after
/// every operation.
pub proof fn lemma_steps_keep_total_in_range(a: Account, amount: u128, epoch: u64)
    requires
        a.wf(),
    ensures
        a.step_deposit(amount) matches Ok(b) ==> b.wf(),
        a.step_deposit_and_stake(amount) matches Ok(b) ==> b.wf(),
        a.step_stake(amount) matches Ok(b) ==> b.wf(),
        a.step_unstake(amount, epoch) matches Ok(b) ==> b.wf(),
        a.step_withdraw(amount, epoch) matches Ok(b) ==> b.wf(),
{
}

/// Staking and unstaking never change the total balance. A deposit adds its
/// amount to it, staked at once or not, and a withdrawal takes its amount
/// from it.
pub proof fn lemma_total_balance(a: Account, amount: u128, epoch: u64)
    requires
        a.wf(),
    ensures
        a.step_stake(amount) matches Ok(b) ==> b.total() == a.total(),
        a.step_unstake(amount, epoch) matches Ok(b) ==> b.total() == a.total(),
        a.step_deposit(amount) matches Ok(b) ==> b.total() == a.total() + amount,
        a.step_deposit_and_stake(amount) matches Ok(b) ==> b.total() == a.total() + amount,
        a.step_withdraw(amount, epoch) matches Ok(b) ==> b.total() == a.total() - amount,
{
}

/// Right after an unstake nothing can be withdrawn, and nothing can before
/// the unbonding delay has passed since the epoch of the unstake.
pub proof fn lemma_unstake_locks(a: Account, amount: u128, epoch: u64, later: u64)
    requires
        a.step_unstake(amount, epoch) is Ok,
    ensures
        !a.step_unstake(amount, epoch)->Ok_0.withdrawable(epoch),
        a.step_unstake(amount, epoch)->Ok_0.withdrawable(later) ==> later >= epoch
            + UNBONDING_EPOCHS,
{
}

/// Once the unbonding delay has passed since the last unstake, what is
/// unstaked can be withdrawn.
pub proof fn lemma_unlocks_after_delay(a: Account, epoch: u64)
    requires
        a.unstaked_balance > 0,
        a.unstake_epoch matches Some(e) ==> epoch >= e + UNBONDING_EPOCHS,
    ensures
        a.withdrawable(epoch),
{
}

/// Staking all a second time changes nothing: the first time leaves nothing
/// unstaked, so the second moves nothing, on the account and on any record
/// to which it is forwarded.
pub proof fn lemma_stake_all_idempotent(a: Account, delegation: Account)
    requires
        a.wf(),
    ensures
        a.step_stake(a.unstaked_balance) is Ok,
        ({
            let once = a.step_stake(a.unstaked_balance)->Ok_0;
            &&& once.unstaked_balance == 0
            &&& once.step_stake(once.unstaked_balance) == Ok::<Account, Error>(once)
            &&& delegation.step_stake(once.unstaked_balance) == Ok::<Account, Error>(delegation)
        }),
{
}

} // verus!
