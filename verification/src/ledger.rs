use crate::account::Operation;
use crate::decimal::{
    amount_from_decimal, amount_of, amount_to_decimal, decimal, lemma_decimal_round_trip,
};
use crate::error::Error;
use crate::staking_farm::{perform, StakingFarm};
use crate::types::StorageBalanceBoundsJson;
use crate::units::{tgas, ONE_TGAS};
use vstd::prelude::*;

verus! {

/// What the ledger reports of a call that changes state.
#[derive(Debug)]
pub struct ExecutionResult {
    /// The call itself failed.
    pub is_failure: bool,
    /// The failures among the receipts that the call led to, one text each.
    pub receipt_failures: Vec<String>,
    /// The logs of the call and of its receipts.
    pub logs: Vec<String>,
    /// The gas that the call and its receipts burnt.
    pub total_gas_burnt: u64,
}

impl ExecutionResult {
    /// The call failed as a whole: at the top, or in any one receipt, even
    /// where the top reports success.
    pub open spec fn failed(&self) -> bool {
        self.is_failure || self.receipt_failures@.len() > 0
    }
}

/// Checks the result of a call: a call that failed as a whole is an error,
/// one that succeeded gives the teragas it burnt, rounded down.
pub fn check_res(res: &ExecutionResult) -> (r: Result<u64, Error>)
    ensures
        r == if res.failed() {
            Err::<u64, Error>(Error::LedgerCallFailed)
        } else {
            Ok::<u64, Error>(res.total_gas_burnt / ONE_TGAS)
        },
{
    if res.is_failure {
        Err(Error::LedgerCallFailed)
    } else if res.receipt_failures.len() > 0 {
        Err(Error::LedgerCallFailed)
    } else {
        Ok(res.total_gas_burnt / ONE_TGAS)
    }
}

/// A call on the ledger, but for who makes it and on which contract.
#[derive(Debug)]
pub struct Call {
    /// The method of the contract.
    pub method: String,
    /// The amount that the call takes as its argument, in decimal digits,
    /// where it takes one.
    pub amount: Option<String>,
    /// The balance attached to the call.
    pub deposit: u128,
    /// The gas attached to the call.
    pub gas: u64,
}

impl Operation {
    /// The method of the farm that performs the operation.
    pub open spec fn method(self) -> Seq<char> {
        match self {
            Operation::Deposit { .. } => "deposit"@,
            Operation::DepositAndStake { .. } => "deposit_and_stake"@,
            Operation::Stake { .. } => "stake"@,
            Operation::Unstake { .. } => "unstake"@,
            Operation::StakeAll => "stake_all"@,
            Operation::UnstakeAll => "unstake_all"@,
            Operation::Withdraw { .. } => "withdraw"@,
            Operation::WithdrawAll => "withdraw_all"@,
        }
    }

    /// The amount that the method takes as its argument. A deposit has none:
    /// its amount is attached to the call.
    pub open spec fn argument(self) -> Option<u128> {
        match self {
            Operation::Stake { amount } => Some(amount),
            Operation::Unstake { amount } => Some(amount),
            Operation::Withdraw { amount } => Some(amount),
            _ => None,
        }
    }

    /// The balance that goes with the call.
    pub open spec fn attached(self) -> u128 {
        match self {
            Operation::Deposit { amount } => amount,
            Operation::DepositAndStake { amount } => amount,
            _ => 0,
        }
    }

    /// The teragas that the call is given: unstaking takes the most, a plain
    /// deposit the least.
    pub open spec fn teragas(self) -> u16 {
        match self {
            Operation::Deposit { .. } => 100,
            Operation::Unstake { .. } => 200,
            Operation::UnstakeAll => 200,
            _ => 130,
        }
    }

    /// The call on the farm that performs the operation.
    pub fn call(&self) -> (c: Call)
        ensures
            c.method@ == self.method(),
            c.amount.deep_view() == match self.argument() {
                Some(amount) => Some(decimal(amount as nat)),
                None => None,
            },
            c.deposit == self.attached(),
            c.gas == self.teragas() * ONE_TGAS,
    {
        match *self {
            Operation::Deposit { amount } => Call {
                method: "deposit".to_owned(),
                amount: None,
                deposit: amount,
                gas: tgas(100),
            },
            Operation::DepositAndStake { amount } => Call {
                method: "deposit_and_stake".to_owned(),
                amount: None,
                deposit: amount,
                gas: tgas(130),
            },
            Operation::Stake { amount } => Call {
                method: "stake".to_owned(),
                amount: Some(amount_to_decimal(amount)),
                deposit: 0,
                gas: tgas(130),
            },
            Operation::Unstake { amount } => Call {
                method: "unstake".to_owned(),
                amount: Some(amount_to_decimal(amount)),
                deposit: 0,
                gas: tgas(200),
            },
            Operation::StakeAll => Call {
                method: "stake_all".to_owned(),
                amount: None,
                deposit: 0,
                gas: tgas(130),
            },
            Operation::UnstakeAll => Call {
                method: "unstake_all".to_owned(),
                amount: None,
                deposit: 0,
                gas: tgas(200),
            },
            Operation::Withdraw { amount } => Call {
                method: "withdraw".to_owned(),
                amount: Some(amount_to_decimal(amount)),
                deposit: 0,
                gas: tgas(130),
            },
            Operation::WithdrawAll => Call {
                method: "withdraw_all".to_owned(),
                amount: None,
                deposit: 0,
                gas: tgas(130),
            },
        }
    }
}

impl Call {
    /// The call carries neither an amount as its argument nor a balance.
    pub open spec fn bare(&self) -> bool {
        self.amount is None && self.deposit == 0
    }

    /// The amount that the call carries as its argument and that can be
    /// read, where the call has no balance attached.
    pub open spec fn argument(&self) -> Option<u128> {
        match self.amount {
            Some(text) if self.deposit == 0 => amount_of(text@),
            _ => None,
        }
    }

    /// The operation that the call asks of the farm, `None` where it asks
    /// for none: the method is not one of the farm's, an amount is missing,
    /// cannot be read or is not expected, or a balance is attached to a
    /// method that takes none. The gas plays no part.
    pub open spec fn operation(&self) -> Option<Operation> {
        if self.method@ == "deposit"@ && self.amount is None {
            Some(Operation::Deposit { amount: self.deposit })
        } else if self.method@ == "deposit_and_stake"@ && self.amount is None {
            Some(Operation::DepositAndStake { amount: self.deposit })
        } else if self.method@ == "stake"@ && self.argument() is Some {
            Some(Operation::Stake { amount: self.argument()->Some_0 })
        } else if self.method@ == "unstake"@ && self.argument() is Some {
            Some(Operation::Unstake { amount: self.argument()->Some_0 })
        } else if self.method@ == "withdraw"@ && self.argument() is Some {
            Some(Operation::Withdraw { amount: self.argument()->Some_0 })
        } else if self.method@ == "stake_all"@ && self.bare() {
            Some(Operation::StakeAll)
        } else if self.method@ == "unstake_all"@ && self.bare() {
            Some(Operation::UnstakeAll)
        } else if self.method@ == "withdraw_all"@ && self.bare() {
            Some(Operation::WithdrawAll)
        } else {
            None
        }
    }

    fn is_method(&self, name: &str) -> (b: bool)
        ensures
            b == (self.method@ == name@),
    {
        self.method == name.to_owned()
    }

    fn read_argument(&self) -> (a: Option<u128>)
        ensures
            a == self.argument(),
    {
        match &self.amount {
            Some(text) => if self.deposit == 0 {
                amount_from_decimal(text.as_str())
            } else {
                None
            },
            None => None,
        }
    }

    /// Reads the operation that the call asks of the farm.
    pub fn decode(&self) -> (op: Option<Operation>)
        ensures
            op == self.operation(),
    {
        proof {
            lemma_methods_differ();
        }
        let bare = self.amount.is_none() && self.deposit == 0;
        if self.is_method("deposit") && self.amount.is_none() {
            Some(Operation::Deposit { amount: self.deposit })
        } else if self.is_method("deposit_and_stake") && self.amount.is_none() {
            Some(Operation::DepositAndStake { amount: self.deposit })
        } else if self.is_method("stake") {
            match self.read_argument() {
                Some(amount) => Some(Operation::Stake { amount }),
                None => None,
            }
        } else if self.is_method("unstake") {
            match self.read_argument() {
                Some(amount) => Some(Operation::Unstake { amount }),
                None => None,
            }
        } else if self.is_method("withdraw") {
            match self.read_argument() {
                Some(amount) => Some(Operation::Withdraw { amount }),
                None => None,
            }
        } else if self.is_method("stake_all") && bare {
            Some(Operation::StakeAll)
        } else if self.is_method("unstake_all") && bare {
            Some(Operation::UnstakeAll)
        } else if self.is_method("withdraw_all") && bare {
            Some(Operation::WithdrawAll)
        } else {
            None
        }
    }
}

/// No two methods of the farm have the same name.
proof fn lemma_methods_differ()
    ensures
        "deposit"@.len() == 7,
        "deposit_and_stake"@.len() == 17,
        "stake"@.len() == 5,
        "unstake"@.len() == 7,
        "stake_all"@.len() == 9,
        "unstake_all"@.len() == 11,
        "withdraw"@.len() == 8,
        "withdraw_all"@.len() == 12,
        "deposit"@[0] != "unstake"@[0],
{
    reveal_strlit("deposit");
    reveal_strlit("deposit_and_stake");
    reveal_strlit("stake");
    reveal_strlit("unstake");
    reveal_strlit("stake_all");
    reveal_strlit("unstake_all");
    reveal_strlit("withdraw");
    reveal_strlit("withdraw_all");
}

/// The call that is written for an operation is read back as that
/// operation: what crosses the boundary to the ledger arrives as it was
/// sent.
pub proof fn lemma_call_round_trip(operation: Operation, call: Call)
    requires
        call.method@ == operation.method(),
        call.amount.deep_view() == match operation.argument() {
            Some(amount) => Some(decimal(amount as nat)),
            None => None,
        },
        call.deposit == operation.attached(),
    ensures
        call.operation() == Some(operation),
{
    lemma_methods_differ();
    match operation.argument() {
        Some(amount) => {
            lemma_decimal_round_trip(amount);
            assert(call.amount is Some);
            assert(call.amount->Some_0@ == decimal(amount as nat));
        },
        None => {
            assert(call.amount is None);
        },
    }
}

/// Carries out on the farm, for `user` at `epoch`, the operation that
/// `call` asks for. A call that asks for none fails as a call.
pub fn execute(farm: &mut StakingFarm, user: &str, call: &Call, epoch: u64) -> (r: Result<
    (),
    Error,
>)
    requires
        old(farm).wf(),
    ensures
        final(farm).wf(),
        match call.operation() {
            Some(operation) => StakingFarm::moved(
                *old(farm),
                user@,
                operation.step(
                    old(farm).account_of(user@),
                    operation.moved_amount(old(farm).account_of(user@)),
                    epoch,
                ),
                operation.step(
                    old(farm).validator.delegation,
                    operation.moved_amount(old(farm).account_of(user@)),
                    epoch,
                ),
                *final(farm),
                r,
            ),
            None => r == Err::<(), Error>(Error::LedgerCallFailed) && *final(farm) == *old(farm),
        },
{
    match call.decode() {
        Some(operation) => perform(farm, user, operation, epoch),
        None => Err(Error::LedgerCallFailed),
    }
}

/// The call that claims a reward from the farm: it takes one unit of
/// balance with it, as the ledger asks of calls that move tokens.
pub fn claim_call() -> (c: Call)
    ensures
        c.method@ == "claim"@,
        c.amount is None,
        c.deposit == 1,
        c.gas == 100 * ONE_TGAS,
{
    Call { method: "claim".to_owned(), amount: None, deposit: 1, gas: tgas(100) }
}

/// The call that stops a reward farm.
pub fn stop_farm_call() -> (c: Call)
    ensures
        c.method@ == "stop_farm"@,
        c.amount is None,
        c.deposit == 1,
        c.gas == 100 * ONE_TGAS,
{
    Call { method: "stop_farm".to_owned(), amount: None, deposit: 1, gas: tgas(100) }
}

/// The call that deposits `amount` for storage on a contract, by the
/// standard method.
pub fn deposit_storage(amount: u128) -> (c: Call)
    ensures
        c.method@ == "storage_deposit"@,
        c.amount is None,
        c.deposit == amount,
        c.gas == 75 * ONE_TGAS,
{
    Call { method: "storage_deposit".to_owned(), amount: None, deposit: amount, gas: tgas(75) }
}

/// The call that registers a user on a contract which reports `bounds` for
/// its storage deposits: a deposit of the least amount it takes. There is
/// none where that amount cannot be read.
pub fn register_user_on_contract(bounds: &StorageBalanceBoundsJson) -> (c: Option<Call>)
    ensures
        c is Some <==> amount_of(bounds.min@) is Some,
        c matches Some(call) ==> {
            &&& call.method@ == "storage_deposit"@
            &&& call.amount is None
            &&& Some(call.deposit) == amount_of(bounds.min@)
            &&& call.gas == 75 * ONE_TGAS
        },
{
    match amount_from_decimal(bounds.min.as_str()) {
        Some(amount) => Some(deposit_storage(amount)),
        None => None,
    }
}

} // verus!
