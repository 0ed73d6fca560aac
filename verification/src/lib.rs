//! A model of delegated staking on two ledgers: a staking farm that keeps
//! the balances of its users, and a validator at which the farm stakes them
//! as one delegation. The farm also runs reward farms, which release a pool
//! of tokens over a window of time to those who have staked.
//!
//! Every operation is proved to meet its contract: the two ledgers
//! stay reconciled, unstaked balances are locked for the unbonding delay,
//! and a refused operation changes nothing.

pub mod account;
pub mod clock;
pub mod decimal;
pub mod error;
pub mod farming;
pub mod ledger;
pub mod math;
pub mod register;
pub mod reward;
pub mod scenario;
pub mod staking_farm;
pub mod types;
pub mod units;
pub mod validator;
