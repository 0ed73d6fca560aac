use vstd::prelude::*;

verus! {

/// One NEAR in yoctoNEAR, the unit in which balances are counted.
pub const ONE_NEAR: u128 = 1_000_000_000_000_000_000_000_000;

/// One teragas in gas units.
pub const ONE_TGAS: u64 = 1_000_000_000_000;

pub const ONE_SEC_IN_NS: u64 = 1_000_000_000;

pub const ONE_DAY_IN_NANOSECONDS: u64 = 86400000000000;

/// `whole` NEAR as a balance.
pub fn near(whole: u32) -> (amount: u128)
    ensures
        amount == whole * ONE_NEAR,
{
    assert(whole * ONE_NEAR <= u32::MAX * ONE_NEAR) by (nonlinear_arith)
        requires
            whole <= u32::MAX,
    ;
    whole as u128 * ONE_NEAR
}

/// `tera` teragas as an amount of gas.
pub fn tgas(tera: u16) -> (gas: u64)
    ensures
        gas == tera * ONE_TGAS,
{
    assert(tera * ONE_TGAS <= u16::MAX * ONE_TGAS) by (nonlinear_arith)
        requires
            tera <= u16::MAX,
    ;
    tera as u64 * ONE_TGAS
}

/// The distance between two amounts.
pub open spec fn distance(left: u128, right: u128) -> int {
    if left > right {
        left - right
    } else {
        right - left
    }
}

/// Checks that two amounts are within `epsilon` of each other.
pub fn assert_almost_eq(left: u128, right: u128, epsilon: u128) -> (close: bool)
    ensures
        close == (distance(left, right) < epsilon),
{
    if left > right {
        (left - right) < epsilon
    } else {
        (right - left) < epsilon
    }
}

} // verus!
