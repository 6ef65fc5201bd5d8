//! The records that the operations hand back on success.

use vstd::prelude::*;
use crate::address::Address;

verus! {

/// A vault was made.
#[derive(Debug, Clone, Copy, PartialEq, Eq)]
pub struct VaultInitialized {
    pub vault: Address,
    pub mint: Address,
    pub vault_bump: u8,
    pub authority_bump: u8,
}

/// A deposit was booked. The balances are those after it.
#[derive(Debug, Clone, Copy, PartialEq, Eq)]
pub struct Deposited {
    pub owner: Address,
    pub vault: Address,
    pub amount: u64,
    pub deposited_after: u64,
    pub total_deposits_after: u64,
}

/// A withdrawal was booked. The balances are those after it.
#[derive(Debug, Clone, Copy, PartialEq, Eq)]
pub struct Withdrawn {
    pub owner: Address,
    pub vault: Address,
    pub amount: u64,
    pub deposited_after: u64,
    pub total_deposits_after: u64,
}

/// Which way a swap goes.
#[derive(Debug, Clone, Copy, PartialEq, Eq, Structural)]
pub enum SwapDirection {
    /// The trader pays the base asset and receives the stable asset.
    BaseToUsdc,
    /// The trader pays the stable asset and receives the base asset.
    UsdcToBase,
}

impl SwapDirection {
    /// The number under which a direction is recorded.
    pub open spec fn code_spec(self) -> u8 {
        match self {
            SwapDirection::BaseToUsdc => 0,
            SwapDirection::UsdcToBase => 1,
        }
    }

    /// Returns the number under which this direction is recorded: 0 for base to
    /// stable, 1 for stable to base.
    #[verifier::when_used_as_spec(code_spec)]
    pub fn code(self) -> (code: u8)
        ensures
            code == self.code(),
    {
        match self {
            SwapDirection::BaseToUsdc => 0,
            SwapDirection::UsdcToBase => 1,
        }
    }
}

/// A swap was priced and found payable: both legs, the price it was made at,
/// and its direction.
#[derive(Debug, Clone, Copy, PartialEq, Eq)]
pub struct OracleSwapped {
    pub user: Address,
    pub base_vault: Address,
    pub usdc_vault: Address,
    pub from_mint: Address,
    pub to_mint: Address,
    pub amount_in: u64,
    pub amount_out: u64,
    pub oracle_price: i64,
    pub oracle_conf: u64,
    pub oracle_expo: i32,
    pub direction: u8,
}

} // verus!
