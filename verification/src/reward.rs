use crate::error::Error;
use crate::math::{lemma_mul_div_monotonic, mul_div};
use crate::register::{
    all_distinct, distinct_ids, find, lemma_recorded_at, lemma_written, put, recorded, Entry,
};
use crate::types::{FarmView, HumanReadableFarm};
use vstd::prelude::*;

verus! {

/// A reward program of the staking farm: a pool of `amount` tokens that is
/// released at a constant rate between `start_date` and `end_date`, and
/// shared among the users by what they have staked.
#[derive(Debug)]
pub struct RewardFarm {
    /// The farm's ordinal, given when it was created.
    pub farm_id: u64,
    pub name: String,
    /// The token in which the reward is paid.
    pub token_id: String,
    /// The whole reward pool.
    pub amount: u128,
    /// First moment of the window, in nanoseconds.
    pub start_date: u64,
    /// Last moment of the window, in nanoseconds.
    pub end_date: u64,
    /// When the farm was stopped, if it was.
    pub stopped_at: Option<u64>,
    /// What has been paid out of the pool so far.
    pub distributed: u128,
    /// What each user has been paid, each user once.
    pub claims: Vec<Entry<u128>>,
}

impl RewardFarm {
    pub open spec fn wf(&self) -> bool {
        &&& self.start_date < self.end_date
        &&& self.amount > 0
        &&& self.distributed <= self.amount
        &&& distinct_ids(self.claims@)
        &&& forall|i: int|
            0 <= i < self.claims.len() ==> (#[trigger] self.claims[i]).value <= self.distributed
    }

    /// The length of the window.
    pub open spec fn window(&self) -> int {
        self.end_date - self.start_date
    }

    /// The part of the window that has passed at `t`. Time before the window
    /// does not count, nor time after it, nor time after the farm was
    /// stopped.
    pub open spec fn elapsed(&self, t: u64) -> int {
        let cut = match self.stopped_at {
            Some(s) => if s < t {
                s
            } else {
                t
            },
            None => t,
        };
        if cut <= self.start_date {
            0
        } else if cut >= self.end_date {
            self.window()
        } else {
            cut - self.start_date
        }
    }

    /// The part of the pool that has been released at `t`, at the constant
    /// rate of the whole pool over the whole window.
    pub open spec fn released(&self, t: u64) -> int {
        (self.amount * self.elapsed(t)) / self.window()
    }

    /// The share of what has been released at `t` that goes to a user with
    /// `staked` out of `total_staked`.
    pub open spec fn entitlement(&self, t: u64, staked: u128, total_staked: u128) -> int {
        if total_staked == 0 {
            0
        } else {
            (self.released(t) * staked) / (total_staked as int)
        }
    }

    /// What `user` has been paid so far.
    pub open spec fn claimed_by(&self, user: Seq<char>) -> u128 {
        recorded(self.claims@, user, 0u128)
    }

    /// What `user` could be paid at `t`: the entitlement less what was paid
    /// before, and no more than is left in the pool.
    pub open spec fn unclaimed(
        &self,
        t: u64,
        user: Seq<char>,
        staked: u128,
        total_staked: u128,
    ) -> int {
        let owed = self.entitlement(t, staked, total_staked) - self.claimed_by(user);
        let left = self.amount - self.distributed;
        if owed <= 0 {
            0
        } else if owed > left {
            left
        } else {
            owed
        }
    }

    /// The unclaimed reward of `user` at `t` as the farm reports it: nothing
    /// outside the window.
    pub open spec fn accrued(
        &self,
        t: u64,
        user: Seq<char>,
        staked: u128,
        total_staked: u128,
    ) -> int {
        if self.start_date <= t <= self.end_date {
            self.unclaimed(t, user, staked, total_staked)
        } else {
            0
        }
    }

    /// The farm is open at `now`: inside its window, not stopped, its pool
    /// not used up.
    pub open spec fn active(&self, now: u64) -> bool {
        &&& self.stopped_at is None
        &&& self.start_date <= now <= self.end_date
        &&& self.distributed < self.amount
    }

    /// The farm as a reader sees it at `now`.
    pub open spec fn described(&self, now: u64) -> FarmView {
        FarmView {
            farm_id: self.farm_id,
            name: self.name@,
            token_id: self.token_id@,
            amount: self.amount,
            start_date: self.start_date,
            end_date: self.end_date,
            active: self.active(now),
        }
    }

    /// `self` and `other` are the same program: they differ at most in what
    /// was paid and in whether they were stopped.
    pub open spec fn same_terms(&self, other: RewardFarm) -> bool {
        &&& self.farm_id == other.farm_id
        &&& self.name == other.name
        &&& self.token_id == other.token_id
        &&& self.amount == other.amount
        &&& self.start_date == other.start_date
        &&& self.end_date == other.end_date
    }

    /// `self` is the farm that was just opened with these terms.
    pub open spec fn opened(
        &self,
        farm_id: u64,
        name: Seq<char>,
        token_id: Seq<char>,
        amount: u128,
        start_date: u64,
        end_date: u64,
    ) -> bool {
        &&& self.farm_id == farm_id
        &&& self.name@ == name
        &&& self.token_id@ == token_id
        &&& self.amount == amount
        &&& self.start_date == start_date
        &&& self.end_date == end_date
        &&& self.stopped_at is None
        &&& self.distributed == 0
        &&& self.claims@.len() == 0
    }

    /// The terms under which a farm can be created.
    pub open spec fn valid_terms(amount: u128, start_date: u64, end_date: u64) -> bool {
        start_date < end_date && amount > 0
    }

    /// A farm with these terms from which nothing has been paid.
    pub fn new(
        farm_id: u64,
        name: &str,
        token_id: &str,
        amount: u128,
        start_date: u64,
        end_date: u64,
    ) -> (r: Option<RewardFarm>)
        ensures
            r is Some <==> RewardFarm::valid_terms(amount, start_date, end_date),
            r matches Some(f) ==> f.wf() && f.opened(
                farm_id,
                name@,
                token_id@,
                amount,
                start_date,
                end_date,
            ),
    {
        if start_date < end_date && amount > 0 {
            Some(
                RewardFarm {
                    farm_id,
                    name: name.to_owned(),
                    token_id: token_id.to_owned(),
                    amount,
                    start_date,
                    end_date,
                    stopped_at: None,
                    distributed: 0,
                    claims: Vec::new(),
                },
            )
        } else {
            None
        }
    }

    /// Whether the farm is well-formed: for those who hold a farm that they
    /// did not get from this library.
    pub fn is_well_formed(&self) -> (b: bool)
        ensures
            b == self.wf(),
    {
        if !(self.start_date < self.end_date && self.amount > 0 && self.distributed
            <= self.amount) {
            return false;
        }
        if !all_distinct(&self.claims) {
            return false;
        }
        let mut i: usize = 0;
        while i < self.claims.len()
            invariant
                i <= self.claims.len(),
                forall|k: int| 0 <= k < i ==> (#[trigger] self.claims[k]).value <= self.distributed,
            decreases self.claims.len() - i,
        {
            if self.claims[i].value > self.distributed {
                return false;
            }
            i = i + 1;
        }
        true
    }

    fn elapsed_at(&self, t: u64) -> (e: u64)
        requires
            self.wf(),
        ensures
            e == self.elapsed(t),
            e <= self.window(),
    {
        let cut = match self.stopped_at {
            Some(s) => if s < t {
                s
            } else {
                t
            },
            None => t,
        };
        if cut <= self.start_date {
            0
        } else if cut >= self.end_date {
            self.end_date - self.start_date
        } else {
            cut - self.start_date
        }
    }

    fn claimed(&self, user: &String) -> (c: u128)
        requires
            self.wf(),
        ensures
            c == self.claimed_by(user@),
            c <= self.distributed,
    {
        match find(&self.claims, user) {
            Some(i) => {
                proof {
                    lemma_recorded_at(self.claims@, i as int, 0u128);
                }
                self.claims[i].value
            },
            None => 0,
        }
    }

    fn unclaimed_at(&self, t: u64, user: &String, staked: u128, total_staked: u128) -> (due: u128)
        requires
            self.wf(),
            staked <= total_staked,
        ensures
            due == self.unclaimed(t, user@, staked, total_staked),
    {
        let released = mul_div(
            self.amount,
            self.elapsed_at(t) as u128,
            (self.end_date - self.start_date) as u128,
        );
        let entitlement = if total_staked == 0 {
            0
        } else {
            mul_div(released, staked, total_staked)
        };
        let claimed = self.claimed(user);
        let left = self.amount - self.distributed;
        if entitlement <= claimed {
            0
        } else if entitlement - claimed > left {
            left
        } else {
            entitlement - claimed
        }
    }

    /// The unclaimed reward at `at_time` of `user`, who has `staked` out of
    /// `total_staked`.
    pub fn accrue(&self, user: &str, staked: u128, total_staked: u128, at_time: u64) -> (reward:
        u128)
        requires
            self.wf(),
            staked <= total_staked,
        ensures
            reward == self.accrued(at_time, user@, staked, total_staked),
    {
        if self.start_date <= at_time && at_time <= self.end_date {
            self.unclaimed_at(at_time, &user.to_owned(), staked, total_staked)
        } else {
            0
        }
    }

    /// What `user`, who has `staked` out of `total_staked`, would be paid by a
    /// claim at `now`.
    pub fn claimable(&self, user: &str, staked: u128, total_staked: u128, now: u64) -> (due: u128)
        requires
            self.wf(),
            staked <= total_staked,
        ensures
            due == self.unclaimed(now, user@, staked, total_staked),
    {
        self.unclaimed_at(now, &user.to_owned(), staked, total_staked)
    }

    /// Pays `user`, who has `staked` out of `total_staked`, what is unclaimed
    /// at `now`, and records it. What was released before the window closed
    /// or the farm was stopped can still be claimed afterwards.
    pub fn claim(&mut self, user: &str, staked: u128, total_staked: u128, now: u64) -> (r: Result<
        u128,
        Error,
    >)
        requires
            old(self).wf(),
            staked <= total_staked,
        ensures
            final(self).wf(),
            old(self).unclaimed(now, user@, staked, total_staked) == 0 ==> r == Err::<u128, Error>(
                Error::NothingToClaim,
            ) && *final(self) == *old(self),
            old(self).unclaimed(now, user@, staked, total_staked) > 0 ==> {
                &&& r == Ok::<u128, Error>(
                    old(self).unclaimed(now, user@, staked, total_staked) as u128,
                )
                &&& final(self).paid(
                    *old(self),
                    user@,
                    old(self).unclaimed(now, user@, staked, total_staked),
                )
            },
    {
        let key = user.to_owned();
        let due = self.unclaimed_at(now, &key, staked, total_staked);
        if due == 0 {
            return Err(Error::NothingToClaim);
        }
        let ghost before = self.claims@;
        let claimed = self.claimed(&key);
        let ghost entry = Entry { account_id: key, value: (claimed + due) as u128 };
        let at = put(&mut self.claims, key, claimed + due);
        self.distributed = self.distributed + due;
        proof {
            lemma_written(before, self.claims@, entry, at as int, 0u128);
            assert forall|i: int| 0 <= i < self.claims.len() implies (#[trigger] self.claims[i]).value
                <= self.distributed by {
                if i != at {
                    assert(self.claims[i] == before[i]);
                }
            }
        }
        Ok(due)
    }

    /// `self` is `before` after `due` was paid to `user`.
    pub open spec fn paid(&self, before: RewardFarm, user: Seq<char>, due: int) -> bool {
        &&& self.same_terms(before)
        &&& self.stopped_at == before.stopped_at
        &&& self.distributed == before.distributed + due
        &&& self.claimed_by(user) == before.claimed_by(user) + due
        &&& forall|other: Seq<char>|
            other != user ==> #[trigger] self.claimed_by(other) == before.claimed_by(other)
    }

    /// Stops the farm at `now`: from then on nothing more is released. A
    /// farm that was stopped before stays stopped as of then.
    pub fn stop(&mut self, now: u64)
        requires
            old(self).wf(),
        ensures
            final(self).wf(),
            final(self).same_terms(*old(self)),
            final(self).distributed == old(self).distributed,
            final(self).claims == old(self).claims,
            final(self).stopped_at == match old(self).stopped_at {
                Some(s) => Some(s),
                None => Some(now),
            },
    {
        if self.stopped_at.is_none() {
            self.stopped_at = Some(now);
        }
    }

    pub fn is_active(&self, now: u64) -> (b: bool)
        ensures
            b == self.active(now),
    {
        self.stopped_at.is_none() && self.start_date <= now && now <= self.end_date
            && self.distributed < self.amount
    }

    /// The farm as a reader sees it at `now`.
    pub fn describe(&self, now: u64) -> (f: HumanReadableFarm)
        ensures
            f@ == self.described(now),
    {
        HumanReadableFarm {
            farm_id: self.farm_id,
            name: self.name.clone(),
            token_id: self.token_id.clone(),
            amount: self.amount,
            start_date: self.start_date,
            end_date: self.end_date,
            active: self.is_active(now),
        }
    }
}

/// What a user can claim never shrinks as time passes, while the user's
/// stake and claims stay as they are.
pub proof fn lemma_unclaimed_monotonic(
    farm: RewardFarm,
    user: Seq<char>,
    staked: u128,
    total_staked: u128,
    t1: u64,
    t2: u64,
)
    requires
        farm.wf(),
        t1 <= t2,
    ensures
        farm.unclaimed(t1, user, staked, total_staked) <= farm.unclaimed(
            t2,
            user,
            staked,
            total_staked,
        ),
{
    lemma_mul_div_monotonic(
        farm.amount as int,
        farm.elapsed(t1),
        farm.elapsed(t2),
        farm.window(),
    );
    if total_staked > 0 {
        assert(farm.released(t1) * staked <= farm.released(t2) * staked) by (nonlinear_arith)
            requires
                farm.released(t1) <= farm.released(t2),
                staked >= 0,
        ;
        vstd::arithmetic::div_mod::lemma_div_is_ordered(
            farm.released(t1) * staked,
            farm.released(t2) * staked,
            total_staked as int,
        );
    }
}

/// Within the window the reward that the farm reports never shrinks as time
/// passes, while the user's stake and claims stay as they are.
pub proof fn lemma_accrual_monotonic(
    farm: RewardFarm,
    user: Seq<char>,
    staked: u128,
    total_staked: u128,
    t1: u64,
    t2: u64,
)
    requires
        farm.wf(),
        farm.start_date <= t1 <= t2 <= farm.end_date,
    ensures
        farm.accrued(t1, user, staked, total_staked) <= farm.accrued(
            t2,
            user,
            staked,
            total_staked,
        ),
{
    lemma_unclaimed_monotonic(farm, user, staked, total_staked, t1, t2);
}

/// A farm that is stopped at `now` releases nothing more: at any later time
/// a user can claim what could be claimed at the stop, no more and no less.
pub proof fn lemma_stop_keeps_what_was_released(
    before: RewardFarm,
    after: RewardFarm,
    now: u64,
    later: u64,
    user: Seq<char>,
    staked: u128,
    total_staked: u128,
)
    requires
        before.wf(),
        before.stopped_at is None,
        after.stopped_at == Some(now),
        after.same_terms(before),
        after.distributed == before.distributed,
        after.claims == before.claims,
        now <= later,
    ensures
        after.unclaimed(later, user, staked, total_staked) == before.unclaimed(
            now,
            user,
            staked,
            total_staked,
        ),
{
}

/// Outside the window no reward is reported, and inside it never more than
/// is left in the pool.
pub proof fn lemma_accrual_bounds(
    farm: RewardFarm,
    user: Seq<char>,
    staked: u128,
    total_staked: u128,
    t: u64,
)
    requires
        farm.wf(),
    ensures
        t < farm.start_date || t > farm.end_date ==> farm.accrued(t, user, staked, total_staked)
            == 0,
        0 <= farm.accrued(t, user, staked, total_staked) <= farm.amount - farm.distributed,
{
}

} // verus!
