//! Fixed accounts, gas budgets and limits that the contract works with.
use vstd::prelude::*;

verus! {

/// The account that keeps the users' compounding preferences.
pub const MAIN_ID: &'static str = "compoundx.near";

/// The Ref boost-farm contract.
pub const BOOSTFARM: &'static str = "boostfarm.ref-labs.near";

/// The Ref exchange, which issues the LP tokens.
pub const REF_FINANCE: &'static str = "v2.ref-finance.near";

/// The Burrow lending contract.
pub const BURROW: &'static str = "contract.main.burrow.near";

/// The wrapped-NEAR token.
pub const WRAP: &'static str = "wrap.near";

/// The price oracle that relays Burrow withdrawals.
pub const ORACLE: &'static str = "priceoracle.near";

/// Gas, in teragas, for fungible-token transfers.
pub const GAS_FT_TRANSFER_TGAS: u64 = 50;

/// Gas, in teragas, for claiming rewards and withdrawing them.
pub const GAS_CLAIM_REWARD_TGAS: u64 = 10;

/// Gas, in teragas, for a call through the oracle.
pub const GAS_ORACLE_CALL_TGAS: u64 = 70;

/// Gas, in teragas, for wrapping NEAR.
pub const GAS_NEAR_DEPOSIT_TGAS: u64 = 10;

/// Gas, in teragas, for reading the user's preference.
pub const GAS_GET_USER_TGAS: u64 = 2;

/// Gas, in teragas, for the callback that reads the preference.
pub const GAS_COMPOUND_CALLBACK_TGAS: u64 = 285;

/// Gas, in teragas, for the callback that splits the claimed rewards.
pub const GAS_FINALIZE_COMPOUND_TGAS: u64 = 180;

/// Gas, in teragas, for the reinvestment step.
pub const GAS_REINVEST_TGAS: u64 = 140;

/// Gas, in teragas, for the callback that reports the reinvestment.
pub const GAS_HANDLE_REINVEST_RESULT_TGAS: u64 = 3;

/// Gas, in teragas, for claiming Ref boost-farm rewards.
pub const GAS_CLAIM_BY_SEED_TGAS: u64 = 6;

/// Gas, in teragas, for moving the collateral into Burrow.
pub const GAS_COLLATERAL_TRANSFER_TGAS: u64 = 50;

/// Gas, in teragas, for an LP-token transfer.
pub const GAS_MFT_TRANSFER_TGAS: u64 = 85;

/// The shortest time between compounding runs, in nanoseconds: one hour.
pub const COMPOUND_INTERVAL_NS: u64 = 3_600_000_000_000;

/// The least balance increase, in yoctoNEAR, that is worth reinvesting.
pub const REINVEST_THRESHOLD: u128 = 20_000_000_000_000;

/// The balance, in yoctoNEAR, at or below which the contract does not reinvest: 2 NEAR.
pub const MIN_REINVEST_BALANCE: u128 = 2_000_000_000_000_000_000_000_000;

/// Percent of the claimed increase that goes to the caller of a compounding run.
pub const CALLER_SHARE_PERCENT: u128 = 5;

/// Percent of the claimed increase that is reinvested.
pub const REINVEST_SHARE_PERCENT: u128 = 95;

} // verus!
