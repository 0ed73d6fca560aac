use crate::decimal::{amount_to_decimal, decimal};
use crate::error::Error;
use crate::reward::RewardFarm;
use crate::staking_farm::{lemma_user_within_delegation, StakingFarm};
use crate::types::{FarmView, HumanReadableFarm, PoolSummary};
use crate::units::ONE_SEC_IN_NS;
use vstd::prelude::*;

verus! {

/// Seconds between the funding of a farm and the start of its window.
pub const FARM_START_DELAY_SECS: u64 = 3;

/// Seconds that the window of a funded farm lasts.
pub const FARM_WINDOW_SECS: u64 = 100;

/// A reward that left the farm: `amount` of `token_id`, to `recipient`.
#[derive(Debug)]
pub struct Payout {
    pub recipient: String,
    pub token_id: String,
    pub amount: u128,
}

/// A reward farm as its funding transfer made it.
#[derive(Debug)]
pub struct FarmTransfer {
    pub farm_id: u64,
    pub start_date: u64,
    pub end_date: u64,
    /// The message that went with the transfer: the farm's name and window
    /// as a JSON object.
    pub msg: String,
}

/// The text of the JSON object with these fields, each a key with a string
/// value, as `serde_json` writes it; `None` where it reports an error.
pub uninterp spec fn json_object_text(fields: Seq<(Seq<char>, Seq<char>)>) -> Option<Seq<char>>;

/// Calls `serde_json::to_string` on the object with three fields, each a key
/// with a string value. Nothing is proved of the text: it is whatever
/// `serde_json` writes for these fields, and the same for the same fields.
#[verifier::external_body]
fn json_object(
    key1: &str,
    value1: &str,
    key2: &str,
    value2: &str,
    key3: &str,
    value3: &str,
) -> (text: Option<String>)
    ensures
        text.deep_view() == json_object_text(
            seq![(key1@, value1@), (key2@, value2@), (key3@, value3@)],
        ),
{
    let mut object = serde_json::Map::new();
    object.insert(key1.to_string(), serde_json::Value::String(value1.to_string()));
    object.insert(key2.to_string(), serde_json::Value::String(value2.to_string()));
    object.insert(key3.to_string(), serde_json::Value::String(value3.to_string()));
    serde_json::to_string(&serde_json::Value::Object(object)).ok()
}

/// The fields of the message that goes with a funding transfer.
pub open spec fn farm_message_fields(name: Seq<char>, start_date: u64, end_date: u64) -> Seq<
    (Seq<char>, Seq<char>),
> {
    seq![
        ("name"@, name),
        ("start_date"@, decimal(start_date as nat)),
        ("end_date"@, decimal(end_date as nat)),
    ]
}

/// The message that goes with a funding transfer: the name of the farm and
/// its window, the dates in decimal digits.
pub fn farm_message(name: &str, start_date: u64, end_date: u64) -> (msg: Option<String>)
    ensures
        msg.deep_view() == json_object_text(farm_message_fields(name@, start_date, end_date)),
{
    let start = amount_to_decimal(start_date as u128);
    let end = amount_to_decimal(end_date as u128);
    json_object("name", name, "start_date", start.as_str(), "end_date", end.as_str())
}

impl StakingFarm {
    /// The balances and the setup are the same in `self` and `other`: they
    /// differ at most in their reward farms.
    pub open spec fn same_holdings(&self, other: StakingFarm) -> bool {
        &&& self.account_id == other.account_id
        &&& self.owner == other.owner
        &&& self.reward_fee_fraction == other.reward_fee_fraction
        &&& self.next_reward_fee_fraction == other.next_reward_fee_fraction
        &&& self.accounts == other.accounts
        &&& self.validator == other.validator
    }

    /// `self` is `before` with the reward farm `farm_id` replaced: no other
    /// reward farm differs, and none was added.
    pub open spec fn same_farms_but(&self, before: StakingFarm, farm_id: int) -> bool {
        &&& self.farms@.len() == before.farms@.len()
        &&& forall|i: int|
            0 <= i < self.farms@.len() && i != farm_id ==> self.farms@[i] == before.farms@[i]
    }

    /// There is a reward farm `farm_id`, and it pays in `token_id`.
    pub open spec fn has_farm(&self, farm_id: u64, token_id: Seq<char>) -> bool {
        farm_id < self.farms@.len() && self.farms@[farm_id as int].token_id@ == token_id
    }
}

/// The reward farms that are active at `now`, in the order of their
/// ordinals, as a reader sees them.
pub open spec fn active_farms(farms: Seq<RewardFarm>, now: u64) -> Seq<FarmView>
    decreases farms.len(),
{
    if farms.len() == 0 {
        Seq::empty()
    } else if farms.last().active(now) {
        active_farms(farms.drop_last(), now).push(farms.last().described(now))
    } else {
        active_farms(farms.drop_last(), now)
    }
}

/// The views of a list of farms.
pub open spec fn farm_views(farms: Seq<HumanReadableFarm>) -> Seq<FarmView> {
    farms.map_values(|f: HumanReadableFarm| f@)
}

/// Opens a reward farm with a pool of `amount` of `token_id`, released
/// between `start_date` and `end_date`, and gives it the next ordinal. The
/// pool must not be empty and the window must not be: the ledger refuses
/// the call otherwise.
pub fn create_farm(
    farm: &mut StakingFarm,
    name: &str,
    token_id: &str,
    amount: u128,
    start_date: u64,
    end_date: u64,
) -> (r: Result<u64, Error>)
    requires
        old(farm).wf(),
    ensures
        final(farm).wf(),
        final(farm).same_holdings(*old(farm)),
        r is Ok <==> RewardFarm::valid_terms(amount, start_date, end_date),
        r is Err ==> r == Err::<u64, Error>(Error::LedgerCallFailed) && *final(farm) == *old(farm),
        r matches Ok(id) ==> {
            &&& id == old(farm).farms@.len()
            &&& final(farm).farms@.len() == id + 1
            &&& final(farm).farms@.drop_last() == old(farm).farms@
            &&& final(farm).farms@[id as int].opened(
                id,
                name@,
                token_id@,
                amount,
                start_date,
                end_date,
            )
        },
{
    let id = farm.farms.len() as u64;
    match RewardFarm::new(id, name, token_id, amount, start_date, end_date) {
        None => Err(Error::LedgerCallFailed),
        Some(created) => {
            farm.farms.push(created);
            assert(farm.farms@.drop_last() =~= old(farm).farms@);
            Ok(id)
        },
    }
}

/// The window of a farm funded at `now`, `None` where it would end after
/// the end of time.
pub open spec fn funded_window(now: u64) -> Option<(u64, u64)> {
    let start = now + FARM_START_DELAY_SECS * ONE_SEC_IN_NS;
    let end = start + FARM_WINDOW_SECS * ONE_SEC_IN_NS;
    if end <= u64::MAX {
        Some((start as u64, end as u64))
    } else {
        None
    }
}

/// The window of a farm that is funded at `now`: it opens three seconds
/// later and lasts a hundred.
pub fn farm_window(now: u64) -> (w: Option<(u64, u64)>)
    ensures
        w == funded_window(now),
{
    let delay = FARM_START_DELAY_SECS * ONE_SEC_IN_NS;
    let length = FARM_WINDOW_SECS * ONE_SEC_IN_NS;
    if now > u64::MAX - delay - length {
        None
    } else {
        Some((now + delay, now + delay + length))
    }
}

/// Opens the farm "Test" that a funding transfer of `amount` of `token_id`
/// makes, given the window and the message that goes with the transfer.
/// Without a message there is no transfer, and the farm is left as it is.
pub fn fund_farm(
    farm: &mut StakingFarm,
    token_id: &str,
    amount: u128,
    start_date: u64,
    end_date: u64,
    msg: Option<String>,
) -> (r: Result<FarmTransfer, Error>)
    requires
        old(farm).wf(),
    ensures
        final(farm).wf(),
        final(farm).same_holdings(*old(farm)),
        r is Ok <==> msg is Some && RewardFarm::valid_terms(amount, start_date, end_date),
        r matches Err(e) ==> e == Error::LedgerCallFailed && *final(farm) == *old(farm),
        r matches Ok(t) ==> {
            &&& Some(t.msg) == msg
            &&& t.start_date == start_date
            &&& t.end_date == end_date
            &&& t.farm_id == old(farm).farms@.len()
            &&& final(farm).farms@.len() == t.farm_id + 1
            &&& final(farm).farms@.drop_last() == old(farm).farms@
            &&& final(farm).farms@[t.farm_id as int].opened(
                t.farm_id,
                "Test"@,
                token_id@,
                amount,
                start_date,
                end_date,
            )
        },
{
    match msg {
        None => Err(Error::LedgerCallFailed),
        Some(msg) => {
            let farm_id = create_farm(farm, "Test", token_id, amount, start_date, end_date)?;
            Ok(FarmTransfer { farm_id, start_date, end_date, msg })
        },
    }
}

/// Funds a reward farm at `now` with `amount` of `token_id`: the transfer
/// carries the farm's name and window as its message, and the farm opens
/// with them.
pub fn transfer_farm_token(farm: &mut StakingFarm, token_id: &str, amount: u128, now: u64) -> (r:
    Result<FarmTransfer, Error>)
    requires
        old(farm).wf(),
    ensures
        final(farm).wf(),
        final(farm).same_holdings(*old(farm)),
        r matches Err(e) ==> e == Error::LedgerCallFailed && *final(farm) == *old(farm),
        match funded_window(now) {
            None => r is Err,
            Some((start_date, end_date)) => {
                &&& r is Ok <==> amount > 0 && json_object_text(
                    farm_message_fields("Test"@, start_date, end_date),
                ) is Some
                &&& r matches Ok(t) ==> {
                    &&& Some(t.msg@) == json_object_text(
                        farm_message_fields("Test"@, start_date, end_date),
                    )
                    &&& t.start_date == start_date
                    &&& t.end_date == end_date
                    &&& t.farm_id == old(farm).farms@.len()
                    &&& final(farm).farms@.len() == t.farm_id + 1
                    &&& final(farm).farms@.drop_last() == old(farm).farms@
                    &&& final(farm).farms@[t.farm_id as int].opened(
                        t.farm_id,
                        "Test"@,
                        token_id@,
                        amount,
                        start_date,
                        end_date,
                    )
                }
            },
        },
{
    match farm_window(now) {
        None => Err(Error::LedgerCallFailed),
        Some((start_date, end_date)) => {
            let msg = farm_message("Test", start_date, end_date);
            fund_farm(farm, token_id, amount, start_date, end_date, msg)
        },
    }
}

/// The reward farms that are active at `now`.
pub fn get_active_farms(farm: &StakingFarm, now: u64) -> (list: Vec<HumanReadableFarm>)
    ensures
        farm_views(list@) == active_farms(farm.farms@, now),
{
    let mut list: Vec<HumanReadableFarm> = Vec::new();
    let mut i: usize = 0;
    while i < farm.farms.len()
        invariant
            i <= farm.farms.len(),
            farm_views(list@) == active_farms(farm.farms@.take(i as int), now),
        decreases farm.farms.len() - i,
    {
        let ghost seen = farm.farms@.take(i as int);
        let ghost next = farm.farms@.take(i + 1);
        let ghost before = list@;
        assert(next.drop_last() =~= seen);
        if farm.farms[i].is_active(now) {
            list.push(farm.farms[i].describe(now));
            assert(farm_views(list@) =~= farm_views(before).push(farm.farms[i as int].described(now)));
        }
        i = i + 1;
    }
    assert(farm.farms@.take(i as int) =~= farm.farms@);
    list
}

/// The summary of the farm at `now`.
pub fn get_pool_summary(farm: &StakingFarm, now: u64) -> (summary: PoolSummary)
    ensures
        summary.owner@ == farm.owner@,
        summary.total_staked_balance == farm.validator.delegation.staked_balance,
        summary.reward_fee_fraction == farm.reward_fee_fraction,
        summary.next_reward_fee_fraction == farm.next_reward_fee_fraction,
        farm_views(summary.farms@) == active_farms(farm.farms@, now),
{
    PoolSummary {
        owner: farm.owner.clone(),
        total_staked_balance: farm.validator.delegation.staked_balance,
        reward_fee_fraction: farm.reward_fee_fraction,
        next_reward_fee_fraction: farm.next_reward_fee_fraction,
        farms: get_active_farms(farm, now),
    }
}

/// The reward of the farm `farm_id` that `user` has not claimed at
/// `at_time`: the user's share, by stake, of what the farm has released,
/// less what the user was paid; nothing outside the farm's window.
pub fn get_unclaimed_reward(farm: &StakingFarm, user: &str, farm_id: u64, at_time: u64) -> (r:
    Result<u128, Error>)
    requires
        farm.wf(),
    ensures
        r is Ok <==> farm_id < farm.farms@.len(),
        r is Err ==> r == Err::<u128, Error>(Error::UnknownFarm),
        r matches Ok(reward) ==> reward == farm.farms@[farm_id as int].accrued(
            at_time,
            user@,
            farm.account_of(user@).staked_balance,
            farm.validator.delegation.staked_balance,
        ),
{
    if farm_id >= farm.farms.len() as u64 {
        return Err(Error::UnknownFarm);
    }
    let staked = crate::staking_farm::get_account_staked_balance(farm, user);
    proof {
        lemma_user_within_delegation(*farm, user@);
    }
    Ok(
        farm.farms[farm_id as usize].accrue(
            user,
            staked,
            farm.validator.delegation.staked_balance,
            at_time,
        ),
    )
}

/// Claims for `user` the reward of the farm `farm_id`, which pays in
/// `token_id`, that is unclaimed at `now`. The reward goes to `delegator_id`
/// where one is given, to `user` otherwise.
pub fn claim(
    farm: &mut StakingFarm,
    user: &str,
    farm_id: u64,
    token_id: &str,
    delegator_id: Option<&str>,
    now: u64,
) -> (r: Result<Payout, Error>)
    requires
        old(farm).wf(),
    ensures
        final(farm).wf(),
        final(farm).same_holdings(*old(farm)),
        !old(farm).has_farm(farm_id, token_id@) ==> r == Err::<Payout, Error>(Error::UnknownFarm),
        old(farm).has_farm(farm_id, token_id@) ==> {
            let due = old(farm).farms@[farm_id as int].unclaimed(
                now,
                user@,
                old(farm).account_of(user@).staked_balance,
                old(farm).validator.delegation.staked_balance,
            );
            &&& due == 0 ==> r == Err::<Payout, Error>(Error::NothingToClaim)
            &&& due > 0 ==> {
                &&& r is Ok
                &&& r->Ok_0.amount == due
                &&& r->Ok_0.token_id@ == token_id@
                &&& r->Ok_0.recipient@ == match delegator_id {
                    Some(d) => d@,
                    None => user@,
                }
                &&& final(farm).same_farms_but(*old(farm), farm_id as int)
                &&& final(farm).farms@[farm_id as int].paid(
                    old(farm).farms@[farm_id as int],
                    user@,
                    due,
                )
            }
        },
        r is Err ==> *final(farm) == *old(farm),
{
    if farm_id >= farm.farms.len() as u64 {
        return Err(Error::UnknownFarm);
    }
    let index = farm_id as usize;
    if farm.farms[index].token_id != token_id.to_owned() {
        return Err(Error::UnknownFarm);
    }
    let staked = crate::staking_farm::get_account_staked_balance(farm, user);
    let total_staked = farm.validator.delegation.staked_balance;
    proof {
        lemma_user_within_delegation(*farm, user@);
    }
    if farm.farms[index].claimable(user, staked, total_staked, now) == 0 {
        return Err(Error::NothingToClaim);
    }
    match farm.farms[index].claim(user, staked, total_staked, now) {
        Err(e) => Err(e),
        Ok(amount) => {
            let recipient = match delegator_id {
                Some(d) => d.to_owned(),
                None => user.to_owned(),
            };
            Ok(Payout { recipient, token_id: token_id.to_owned(), amount })
        },
    }
}

/// Stops the reward farm `farm_id` at `now`: it is no longer active and
/// releases nothing more. What it released before can still be claimed.
pub fn stop_farm(farm: &mut StakingFarm, farm_id: u64, now: u64) -> (r: Result<(), Error>)
    requires
        old(farm).wf(),
    ensures
        final(farm).wf(),
        final(farm).same_holdings(*old(farm)),
        r is Ok <==> farm_id < old(farm).farms@.len(),
        r is Err ==> r == Err::<(), Error>(Error::UnknownFarm) && *final(farm) == *old(farm),
        r is Ok ==> {
            let stopped = final(farm).farms@[farm_id as int];
            let before = old(farm).farms@[farm_id as int];
            &&& final(farm).same_farms_but(*old(farm), farm_id as int)
            &&& stopped.same_terms(before)
            &&& stopped.distributed == before.distributed
            &&& stopped.claims == before.claims
            &&& stopped.stopped_at == match before.stopped_at {
                Some(s) => Some(s),
                None => Some(now),
            }
            &&& !stopped.active(now)
        },
{
    if farm_id >= farm.farms.len() as u64 {
        return Err(Error::UnknownFarm);
    }
    farm.farms[farm_id as usize].stop(now);
    Ok(())
}

} // verus!
