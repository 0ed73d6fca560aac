use crate::account::{Account, Operation};
use crate::error::Error;
use crate::register::{
    all_distinct, distinct_ids, find, lemma_recorded_at, lemma_written, listed_at, put, recorded,
    Entry,
};
use crate::reward::RewardFarm;
use crate::types::{HumanReadableAccount, Ratio};
use crate::validator::ValidatorLedger;
use vstd::prelude::*;

verus! {

/// What all the listed users have staked.
pub open spec fn sum_staked(entries: Seq<Entry<Account>>) -> int
    decreases entries.len(),
{
    if entries.len() == 0 {
        0
    } else {
        sum_staked(entries.drop_last()) + entries.last().value.staked_balance
    }
}

/// What all the listed users hold unstaked.
pub open spec fn sum_unstaked(entries: Seq<Entry<Account>>) -> int
    decreases entries.len(),
{
    if entries.len() == 0 {
        0
    } else {
        sum_unstaked(entries.drop_last()) + entries.last().value.unstaked_balance
    }
}

proof fn lemma_sum_push(entries: Seq<Entry<Account>>, entry: Entry<Account>)
    ensures
        sum_staked(entries.push(entry)) == sum_staked(entries) + entry.value.staked_balance,
        sum_unstaked(entries.push(entry)) == sum_unstaked(entries)
            + entry.value.unstaked_balance,
{
    assert(entries.push(entry).drop_last() =~= entries);
}

proof fn lemma_sum_update(entries: Seq<Entry<Account>>, i: int, entry: Entry<Account>)
    requires
        0 <= i < entries.len(),
    ensures
        sum_staked(entries.update(i, entry)) == sum_staked(entries)
            - entries[i].value.staked_balance + entry.value.staked_balance,
        sum_unstaked(entries.update(i, entry)) == sum_unstaked(entries)
            - entries[i].value.unstaked_balance + entry.value.unstaked_balance,
    decreases entries.len(),
{
    if i == entries.len() - 1 {
        assert(entries.update(i, entry).drop_last() =~= entries.drop_last());
    } else {
        assert(entries.update(i, entry).drop_last() =~= entries.drop_last().update(i, entry));
        lemma_sum_update(entries.drop_last(), i, entry);
    }
}

/// A single account holds no more than all of them together.
proof fn lemma_sum_bounds(entries: Seq<Entry<Account>>, i: int)
    requires
        0 <= i < entries.len(),
    ensures
        entries[i].value.staked_balance <= sum_staked(entries),
        entries[i].value.unstaked_balance <= sum_unstaked(entries),
    decreases entries.len(),
{
    lemma_sum_nonnegative(entries.drop_last());
    if i < entries.len() - 1 {
        lemma_sum_bounds(entries.drop_last(), i);
    }
}

/// A beginning of the list holds no more than the whole list.
proof fn lemma_sum_prefix(entries: Seq<Entry<Account>>, n: int)
    requires
        0 <= n <= entries.len(),
    ensures
        sum_staked(entries.take(n)) <= sum_staked(entries),
        sum_unstaked(entries.take(n)) <= sum_unstaked(entries),
    decreases entries.len() - n,
{
    if n == entries.len() {
        assert(entries.take(n) =~= entries);
    } else {
        lemma_sum_prefix(entries, n + 1);
        assert(entries.take(n + 1).drop_last() =~= entries.take(n));
    }
}

proof fn lemma_sum_nonnegative(entries: Seq<Entry<Account>>)
    ensures
        0 <= sum_staked(entries),
        0 <= sum_unstaked(entries),
    decreases entries.len(),
{
    if entries.len() > 0 {
        lemma_sum_nonnegative(entries.drop_last());
    }
}

/// The staking farm: the balances of its users, and the one delegation at
/// the validator through which all of them are staked.
#[derive(Debug)]
pub struct StakingFarm {
    /// The account of the farm itself, under which it delegates.
    pub account_id: String,
    pub owner: String,
    pub reward_fee_fraction: Ratio,
    pub next_reward_fee_fraction: Ratio,
    /// The users that have an account, each once.
    pub accounts: Vec<Entry<Account>>,
    /// The farm's delegation, as the validator records it.
    pub validator: ValidatorLedger,
    /// The reward farms, each at the index that is its ordinal.
    pub farms: Vec<RewardFarm>,
}

impl StakingFarm {
    /// The two ledgers are reconciled: what the validator records for the
    /// farm is the sum of what the farm records for its users.
    pub open spec fn reconciled(&self) -> bool {
        &&& sum_staked(self.accounts@) == self.validator.delegation.staked_balance
        &&& sum_unstaked(self.accounts@) == self.validator.delegation.unstaked_balance
    }

    pub open spec fn wf(&self) -> bool {
        self.structured() && self.reconciled()
    }

    /// The account of `user` on the farm.
    pub open spec fn account_of(&self, user: Seq<char>) -> Account {
        recorded(self.accounts@, user, Account::zero())
    }

    /// `self` is `before` with the account of `user` replaced by `account`:
    /// no other user's account differs.
    pub open spec fn updates(&self, before: StakingFarm, user: Seq<char>, account: Account) -> bool {
        &&& self.account_of(user) == account
        &&& forall|other: Seq<char>|
            other != user ==> #[trigger] self.account_of(other) == before.account_of(other)
    }

    /// Everything but the balances is the same in `self` and `other`.
    pub open spec fn same_setup(&self, other: StakingFarm) -> bool {
        &&& self.account_id == other.account_id
        &&& self.owner == other.owner
        &&& self.reward_fee_fraction == other.reward_fee_fraction
        &&& self.next_reward_fee_fraction == other.next_reward_fee_fraction
        &&& self.validator.same_setup(other.validator)
        &&& self.farms == other.farms
    }

    /// What an operation of `user` must have done to the farm, given the
    /// step it takes on the user's account and the step that is forwarded to
    /// the validator.
    ///
    /// The user's step is tested first, and its error is the user's to see.
    /// A step that the validator refuses fails the forwarded call. Only when
    /// both succeed are both written, so the ledgers stay in lockstep; on any
    /// failure nothing changes.
    pub open spec fn moved(
        before: StakingFarm,
        user: Seq<char>,
        user_step: Result<Account, Error>,
        forwarded: Result<Account, Error>,
        after: StakingFarm,
        r: Result<(), Error>,
    ) -> bool {
        match (user_step, forwarded) {
            (Ok(account), Ok(delegation)) => {
                &&& r is Ok
                &&& after.updates(before, user, account)
                &&& after.validator.delegation == delegation
                &&& after.same_setup(before)
            },
            (Ok(_), Err(_)) => r == Err::<(), Error>(Error::LedgerCallFailed) && after == before,
            (Err(e), _) => r == Err::<(), Error>(e) && after == before,
        }
    }

    /// A farm without users or reward farms, delegating under `account_id`
    /// to a validator at which it holds nothing.
    pub fn new(
        account_id: &str,
        owner: &str,
        reward_fee_fraction: Ratio,
        validator: ValidatorLedger,
    ) -> (r: Option<StakingFarm>)
        ensures
            r is Some <==> validator.delegator@ == account_id@ && validator.delegation
                == Account::zero(),
            r matches Some(farm) ==> StakingFarm::fresh(
                farm,
                account_id@,
                owner@,
                reward_fee_fraction,
                validator,
            ),
    {
        if account_id.to_owned() != validator.delegator {
            return None;
        }
        if validator.delegation.staked_balance != 0 || validator.delegation.unstaked_balance != 0
            || validator.delegation.unstake_epoch.is_some() {
            return None;
        }
        Some(
            StakingFarm {
                account_id: account_id.to_owned(),
                owner: owner.to_owned(),
                reward_fee_fraction,
                next_reward_fee_fraction: reward_fee_fraction,
                accounts: Vec::new(),
                validator,
                farms: Vec::new(),
            },
        )
    }

    /// `farm` is the farm that `new` makes of these.
    pub open spec fn fresh(
        farm: StakingFarm,
        account_id: Seq<char>,
        owner: Seq<char>,
        reward_fee_fraction: Ratio,
        validator: ValidatorLedger,
    ) -> bool {
        &&& farm.wf()
        &&& farm.account_id@ == account_id
        &&& farm.owner@ == owner
        &&& farm.reward_fee_fraction == reward_fee_fraction
        &&& farm.next_reward_fee_fraction == reward_fee_fraction
        &&& farm.accounts@.len() == 0
        &&& farm.farms@.len() == 0
        &&& farm.validator == validator
        &&& forall|user: Seq<char>| farm.account_of(user) == Account::zero()
    }

    /// Whether every user's total fits and the users' balances add up to
    /// those of the delegation.
    fn balances_reconciled(&self) -> (b: bool)
        ensures
            b == (self.reconciled() && forall|i: int|
                0 <= i < self.accounts.len() ==> (#[trigger] self.accounts[i]).value.wf()),
    {
        let mut staked: u128 = 0;
        let mut unstaked: u128 = 0;
        let mut i: usize = 0;
        while i < self.accounts.len()
            invariant
                i <= self.accounts.len(),
                staked == sum_staked(self.accounts@.take(i as int)),
                unstaked == sum_unstaked(self.accounts@.take(i as int)),
                staked <= self.validator.delegation.staked_balance,
                unstaked <= self.validator.delegation.unstaked_balance,
                forall|k: int| 0 <= k < i ==> (#[trigger] self.accounts[k]).value.wf(),
            decreases self.accounts.len() - i,
        {
            let account = self.accounts[i].value;
            proof {
                assert(self.accounts@.take(i + 1).drop_last() =~= self.accounts@.take(i as int));
                lemma_sum_prefix(self.accounts@, i + 1);
            }
            if !account.is_well_formed() {
                return false;
            }
            if account.staked_balance > self.validator.delegation.staked_balance - staked {
                return false;
            }
            if account.unstaked_balance > self.validator.delegation.unstaked_balance - unstaked {
                return false;
            }
            staked = staked + account.staked_balance;
            unstaked = unstaked + account.unstaked_balance;
            i = i + 1;
        }
        assert(self.accounts@.take(i as int) =~= self.accounts@);
        staked == self.validator.delegation.staked_balance && unstaked
            == self.validator.delegation.unstaked_balance
    }

    /// Whether the reward farms are well-formed, each with its index as its
    /// ordinal.
    fn farms_in_order(&self) -> (b: bool)
        ensures
            b == (forall|i: int|
                0 <= i < self.farms.len() ==> (#[trigger] self.farms[i]).wf() && self.farms[i].farm_id
                    == i),
    {
        let mut i: usize = 0;
        while i < self.farms.len()
            invariant
                i <= self.farms.len(),
                forall|k: int|
                    0 <= k < i ==> (#[trigger] self.farms[k]).wf() && self.farms[k].farm_id == k,
            decreases self.farms.len() - i,
        {
            if !(self.farms[i].is_well_formed() && self.farms[i].farm_id == i as u64) {
                return false;
            }
            i = i + 1;
        }
        true
    }

    /// Whether the farm is well-formed: for those who hold a farm that they
    /// did not get from this library, and must know before they call it.
    pub fn is_well_formed(&self) -> (b: bool)
        ensures
            b == self.wf(),
    {
        all_distinct(&self.accounts) && self.validator.delegation.is_well_formed()
            && self.validator.delegator == self.account_id && self.balances_reconciled()
            && self.farms_in_order()
    }

    /// The account of `user`, by value.
    fn lookup(&self, user: &String) -> (a: Account)
        requires
            self.wf(),
        ensures
            a == self.account_of(user@),
            a.wf(),
            a.staked_balance <= self.validator.delegation.staked_balance,
            a.unstaked_balance <= self.validator.delegation.unstaked_balance,
    {
        match find(&self.accounts, user) {
            Some(i) => {
                proof {
                    lemma_recorded_at(self.accounts@, i as int, Account::zero());
                    lemma_sum_bounds(self.accounts@, i as int);
                }
                self.accounts[i].value
            },
            None => Account::new(),
        }
    }

    /// All that makes a farm well-formed but that the two ledgers are
    /// reconciled.
    pub open spec fn structured(&self) -> bool {
        &&& distinct_ids(self.accounts@)
        &&& forall|i: int| 0 <= i < self.accounts.len() ==> (#[trigger] self.accounts[i]).value.wf()
        &&& self.validator.wf()
        &&& self.validator.delegator@ == self.account_id@
        &&& forall|i: int|
            0 <= i < self.farms.len() ==> (#[trigger] self.farms[i]).wf() && self.farms[i].farm_id
                == i
    }

    /// Performs `operation` for `user` at `epoch`, in two phases. First each
    /// ledger decides for itself: the farm tests the step on the user's
    /// account, then forwards the operation to the validator, which takes
    /// its own step or refuses. Only then is the user's account written. So
    /// either both ledgers have changed or neither.
    fn forward(&mut self, user: &str, operation: Operation, epoch: u64) -> (r: Result<(), Error>)
        requires
            old(self).wf(),
        ensures
            final(self).wf(),
            StakingFarm::moved(
                *old(self),
                user@,
                operation.step(
                    old(self).account_of(user@),
                    operation.moved_amount(old(self).account_of(user@)),
                    epoch,
                ),
                operation.step(
                    old(self).validator.delegation,
                    operation.moved_amount(old(self).account_of(user@)),
                    epoch,
                ),
                *final(self),
                r,
            ),
    {
        let key = user.to_owned();
        let account = self.lookup(&key);
        let amount = operation.amount_for(&account);
        match account.try_step(operation, amount, epoch) {
            Err(e) => Err(e),
            Ok(stepped) => match self.validator.apply(operation, amount, epoch) {
                Err(_) => Err(Error::LedgerCallFailed),
                Ok(()) => {
                    self.record(key, stepped);
                    Ok(())
                },
            },
        }
    }

    /// Writes the account of `user`, after the validator has taken the same
    /// step on the delegation. This is the only place where the balances of
    /// the farm change.
    fn record(&mut self, user: String, account: Account)
        requires
            old(self).structured(),
            account.wf(),
            sum_staked(old(self).accounts@) - old(self).account_of(user@).staked_balance
                + account.staked_balance == old(self).validator.delegation.staked_balance,
            sum_unstaked(old(self).accounts@) - old(self).account_of(user@).unstaked_balance
                + account.unstaked_balance == old(self).validator.delegation.unstaked_balance,
        ensures
            final(self).wf(),
            final(self).updates(*old(self), user@, account),
            final(self).validator == old(self).validator,
            final(self).same_setup(*old(self)),
    {
        let ghost before = self.accounts@;
        let ghost entry = Entry { account_id: user, value: account };
        let at = put(&mut self.accounts, user, account);
        proof {
            lemma_written(before, self.accounts@, entry, at as int, Account::zero());
            if at < before.len() {
                lemma_recorded_at(before, at as int, Account::zero());
                lemma_sum_update(before, at as int, entry);
            } else {
                lemma_sum_push(before, entry);
            }
        }
    }
}

/// Performs `operation` for `user` at `epoch` on the farm, and through it on
/// the validator: the one way by which the two ledgers change together.
pub fn perform(farm: &mut StakingFarm, user: &str, operation: Operation, epoch: u64) -> (r: Result<
    (),
    Error,
>)
    requires
        old(farm).wf(),
    ensures
        final(farm).wf(),
        StakingFarm::moved(
            *old(farm),
            user@,
            operation.step(
                old(farm).account_of(user@),
                operation.moved_amount(old(farm).account_of(user@)),
                epoch,
            ),
            operation.step(
                old(farm).validator.delegation,
                operation.moved_amount(old(farm).account_of(user@)),
                epoch,
            ),
            *final(farm),
            r,
        ),
{
    farm.forward(user, operation, epoch)
}

/// At every settled point the validator's record of the farm is the sum of
/// the farm's records of its users: of what they have staked, and of what
/// they hold unstaked.
pub proof fn lemma_ledgers_reconciled(farm: StakingFarm)
    requires
        farm.wf(),
    ensures
        sum_staked(farm.accounts@) == farm.validator.delegation.staked_balance,
        sum_unstaked(farm.accounts@) == farm.validator.delegation.unstaked_balance,
{
}

/// No user holds more than the farm holds at the validator.
pub proof fn lemma_user_within_delegation(farm: StakingFarm, user: Seq<char>)
    requires
        farm.wf(),
    ensures
        farm.account_of(user).staked_balance <= farm.validator.delegation.staked_balance,
        farm.account_of(user).unstaked_balance <= farm.validator.delegation.unstaked_balance,
{
    if exists|i: int| listed_at(farm.accounts@, user, i) {
        let i = choose|i: int| listed_at(farm.accounts@, user, i);
        lemma_sum_bounds(farm.accounts@, i);
    }
}

/// Staking all twice in a row is staking all once: the second time succeeds
/// and leaves every account on the farm and the farm's delegation as the
/// first left them.
pub proof fn lemma_stake_all_twice(
    start: StakingFarm,
    once: StakingFarm,
    twice: StakingFarm,
    user: Seq<char>,
    first: Result<(), Error>,
    second: Result<(), Error>,
)
    requires
        start.wf(),
        StakingFarm::moved(
            start,
            user,
            start.account_of(user).step_stake(start.account_of(user).unstaked_balance),
            start.validator.delegation.step_stake(start.account_of(user).unstaked_balance),
            once,
            first,
        ),
        StakingFarm::moved(
            once,
            user,
            once.account_of(user).step_stake(once.account_of(user).unstaked_balance),
            once.validator.delegation.step_stake(once.account_of(user).unstaked_balance),
            twice,
            second,
        ),
    ensures
        first is Ok,
        second is Ok,
        once.account_of(user).unstaked_balance == 0,
        twice.validator.delegation == once.validator.delegation,
        forall|anyone: Seq<char>| twice.account_of(anyone) == once.account_of(anyone),
{
    lemma_user_within_delegation(start, user);
    assert forall|anyone: Seq<char>| twice.account_of(anyone) == once.account_of(anyone) by {
        if anyone != user {
            assert(twice.account_of(anyone) == once.account_of(anyone));
        }
    }
}

/// Credits `amount` to the unstaked balance of `user`, and to the farm's
/// delegation at the validator.
pub fn deposit(farm: &mut StakingFarm, user: &str, amount: u128) -> (r: Result<(), Error>)
    requires
        old(farm).wf(),
    ensures
        final(farm).wf(),
        StakingFarm::moved(
            *old(farm),
            user@,
            old(farm).account_of(user@).step_deposit(amount),
            old(farm).validator.delegation.step_deposit(amount),
            *final(farm),
            r,
        ),
{
    farm.forward(user, Operation::Deposit { amount }, 0)
}

/// Deposits `amount` for `user` and stakes it at once.
pub fn deposit_and_stake(farm: &mut StakingFarm, user: &str, amount: u128) -> (r: Result<
    (),
    Error,
>)
    requires
        old(farm).wf(),
    ensures
        final(farm).wf(),
        StakingFarm::moved(
            *old(farm),
            user@,
            old(farm).account_of(user@).step_deposit_and_stake(amount),
            old(farm).validator.delegation.step_deposit_and_stake(amount),
            *final(farm),
            r,
        ),
{
    farm.forward(user, Operation::DepositAndStake { amount }, 0)
}

/// Stakes `amount` of what `user` holds unstaked.
pub fn stake(farm: &mut StakingFarm, user: &str, amount: u128) -> (r: Result<(), Error>)
    requires
        old(farm).wf(),
    ensures
        final(farm).wf(),
        StakingFarm::moved(
            *old(farm),
            user@,
            old(farm).account_of(user@).step_stake(amount),
            old(farm).validator.delegation.step_stake(amount),
            *final(farm),
            r,
        ),
{
    farm.forward(user, Operation::Stake { amount }, 0)
}

/// Unstakes `amount` of what `user` has staked, at `epoch`: the unbonding
/// delay of the user restarts, and so does that of the farm's delegation.
pub fn unstake(farm: &mut StakingFarm, user: &str, amount: u128, epoch: u64) -> (r: Result<
    (),
    Error,
>)
    requires
        old(farm).wf(),
    ensures
        final(farm).wf(),
        StakingFarm::moved(
            *old(farm),
            user@,
            old(farm).account_of(user@).step_unstake(amount, epoch),
            old(farm).validator.delegation.step_unstake(amount, epoch),
            *final(farm),
            r,
        ),
{
    farm.forward(user, Operation::Unstake { amount }, epoch)
}

/// Stakes all that `user` holds unstaked.
pub fn stake_all(farm: &mut StakingFarm, user: &str) -> (r: Result<(), Error>)
    requires
        old(farm).wf(),
    ensures
        final(farm).wf(),
        StakingFarm::moved(
            *old(farm),
            user@,
            old(farm).account_of(user@).step_stake(old(farm).account_of(user@).unstaked_balance),
            old(farm).validator.delegation.step_stake(
                old(farm).account_of(user@).unstaked_balance,
            ),
            *final(farm),
            r,
        ),
{
    farm.forward(user, Operation::StakeAll, 0)
}

/// Unstakes all that `user` has staked, at `epoch`.
pub fn unstake_all(farm: &mut StakingFarm, user: &str, epoch: u64) -> (r: Result<(), Error>)
    requires
        old(farm).wf(),
    ensures
        final(farm).wf(),
        StakingFarm::moved(
            *old(farm),
            user@,
            old(farm).account_of(user@).step_unstake(
                old(farm).account_of(user@).staked_balance,
                epoch,
            ),
            old(farm).validator.delegation.step_unstake(
                old(farm).account_of(user@).staked_balance,
                epoch,
            ),
            *final(farm),
            r,
        ),
{
    farm.forward(user, Operation::UnstakeAll, epoch)
}

/// Takes `amount` out of what `user` holds unstaked, at `epoch`. The user's
/// own lock is tested first; the delegation has a lock of its own, which any
/// user's unstake restarts, and while it holds the forwarded call fails.
pub fn withdraw(farm: &mut StakingFarm, user: &str, amount: u128, epoch: u64) -> (r: Result<
    (),
    Error,
>)
    requires
        old(farm).wf(),
    ensures
        final(farm).wf(),
        StakingFarm::moved(
            *old(farm),
            user@,
            old(farm).account_of(user@).step_withdraw(amount, epoch),
            old(farm).validator.delegation.step_withdraw(amount, epoch),
            *final(farm),
            r,
        ),
{
    farm.forward(user, Operation::Withdraw { amount }, epoch)
}

/// Takes out all that `user` holds unstaked, at `epoch`.
pub fn withdraw_all(farm: &mut StakingFarm, user: &str, epoch: u64) -> (r: Result<(), Error>)
    requires
        old(farm).wf(),
    ensures
        final(farm).wf(),
        StakingFarm::moved(
            *old(farm),
            user@,
            old(farm).account_of(user@).step_withdraw(
                old(farm).account_of(user@).unstaked_balance,
                epoch,
            ),
            old(farm).validator.delegation.step_withdraw(
                old(farm).account_of(user@).unstaked_balance,
                epoch,
            ),
            *final(farm),
            r,
        ),
{
    farm.forward(user, Operation::WithdrawAll, epoch)
}

pub fn get_account_unstaked_balance(farm: &StakingFarm, user: &str) -> (b: u128)
    requires
        farm.wf(),
    ensures
        b == farm.account_of(user@).unstaked_balance,
{
    farm.lookup(&user.to_owned()).unstaked_balance
}

pub fn get_account_staked_balance(farm: &StakingFarm, user: &str) -> (b: u128)
    requires
        farm.wf(),
    ensures
        b == farm.account_of(user@).staked_balance,
{
    farm.lookup(&user.to_owned()).staked_balance
}

/// The total balance of `user`: the sum of the other two.
pub fn get_account_total_balance(farm: &StakingFarm, user: &str) -> (b: u128)
    requires
        farm.wf(),
    ensures
        b == farm.account_of(user@).staked_balance + farm.account_of(user@).unstaked_balance,
{
    farm.lookup(&user.to_owned()).total_balance()
}

/// Whether `user` can withdraw at `epoch`.
pub fn is_account_unstaked_balance_available(farm: &StakingFarm, user: &str, epoch: u64) -> (b:
    bool)
    requires
        farm.wf(),
    ensures
        b == farm.account_of(user@).withdrawable(epoch),
{
    farm.lookup(&user.to_owned()).can_withdraw(epoch)
}

pub fn get_account(farm: &StakingFarm, user: &str, epoch: u64) -> (a: HumanReadableAccount)
    requires
        farm.wf(),
    ensures
        a.account_id@ == user@,
        a.unstaked_balance == farm.account_of(user@).unstaked_balance,
        a.staked_balance == farm.account_of(user@).staked_balance,
        a.can_withdraw == farm.account_of(user@).withdrawable(epoch),
{
    let key = user.to_owned();
    let account = farm.lookup(&key);
    HumanReadableAccount {
        account_id: key,
        unstaked_balance: account.unstaked_balance,
        staked_balance: account.staked_balance,
        can_withdraw: account.can_withdraw(epoch),
    }
}

/// Whether the farm itself can withdraw from the validator at `epoch`.
pub fn is_contract_can_withdraw(farm: &StakingFarm, epoch: u64) -> (b: bool)
    ensures
        b == farm.validator.delegation.withdrawable(epoch),
{
    farm.validator.delegation.can_withdraw(epoch)
}

} // verus!
