use vstd::prelude::*;

verus! {

/// The bounds a contract puts on a storage deposit, as it reports them:
/// amounts in decimal digits.
#[derive(Debug)]
pub struct StorageBalanceBoundsJson {
    pub min: String,
    pub max: Option<String>,
}

/// An account as the ledgers show it to a reader.
#[derive(Debug)]
pub struct HumanReadableAccount {
    pub account_id: String,
    /// The unstaked balance that can be withdrawn or staked.
    pub unstaked_balance: u128,
    /// The amount balance staked at the current "stake" share price.
    pub staked_balance: u128,
    /// Whether the unstaked balance is available for withdrawal now.
    pub can_withdraw: bool,
}

/// A fraction, such as the share of the rewards that goes to a pool's owner.
#[derive(Clone, Copy, Debug, PartialEq, Eq, Structural)]
pub struct Ratio {
    pub numerator: u32,
    pub denominator: u32,
}

/// A reward farm as the staking farm shows it to a reader.
#[derive(Debug)]
pub struct HumanReadableFarm {
    pub farm_id: u64,
    pub name: String,
    pub token_id: String,
    pub amount: u128,
    pub start_date: u64,
    pub end_date: u64,
    pub active: bool,
}

/// What a reader sees of a farm, with the texts as sequences of characters.
pub struct FarmView {
    pub farm_id: u64,
    pub name: Seq<char>,
    pub token_id: Seq<char>,
    pub amount: u128,
    pub start_date: u64,
    pub end_date: u64,
    pub active: bool,
}

impl View for HumanReadableFarm {
    type V = FarmView;

    open spec fn view(&self) -> FarmView {
        FarmView {
            farm_id: self.farm_id,
            name: self.name@,
            token_id: self.token_id@,
            amount: self.amount,
            start_date: self.start_date,
            end_date: self.end_date,
            active: self.active,
        }
    }
}

/// A summary of the staking farm: a projection of its state, with no storage
/// of its own.
#[derive(Debug)]
pub struct PoolSummary {
    /// Pool owner.
    pub owner: String,
    /// The total staked balance.
    pub total_staked_balance: u128,
    /// The fraction of the reward that goes to the owner of the staking pool
    /// for running the validator node.
    pub reward_fee_fraction: Ratio,
    /// If reward fee fraction is changing, this will be different from
    /// current.
    pub next_reward_fee_fraction: Ratio,
    /// Active farms that affect stakers.
    pub farms: Vec<HumanReadableFarm>,
}

} // verus!
