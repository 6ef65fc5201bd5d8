//! Custodial vault ledger with an oracle-priced exchange between a base asset
//! pool and a stable asset pool.
//!
//! The crate holds the decisions of the four vault operations as verified
//! functions on plain values: which requests are admissible, which amounts
//! move, and how the ledger reads afterwards. Moving the assets, reading the
//! price feed and the clock, and persisting the records are left to the caller.
//!
//! - `fixed_point`: conversion between the two assets at a price, in integers.
//! - `oracle`: whether a reading of the price feed may be used.
//! - `ledger`: making a vault, depositing and withdrawing.
//! - `swap`: the exchange between two vaults at the oracle price.
//! - `invariants`: what holds of the ledger after any successful operations.
//! - `state`, `events`, `error`, `address`: the records and values of the above.

pub mod address;
pub mod error;
pub mod events;
pub mod fixed_point;
pub mod invariants;
pub mod ledger;
pub mod oracle;
pub mod state;
pub mod swap;

pub use address::{usdc_mint, Address};
pub use error::TeraniumError;
pub use events::{Deposited, OracleSwapped, SwapDirection, VaultInitialized, Withdrawn};
pub use fixed_point::{base_to_usdc, pow10_u128, usdc_to_base, MAX_POW10_EXPONENT};
pub use ledger::{
    authorize_deposit, authorize_withdraw, book_deposit, book_withdraw, deposit, initialize_vault,
    withdraw, Deposit, InitializeVault, InitializeVaultBumps, Withdraw,
};
pub use oracle::{validate_observation, OracleObservation, BPS_DENOM, MAX_STALENESS_SECONDS};
pub use state::{Mint, TokenAccount, UserPosition, VaultAccount};
pub use swap::{
    check_vault_liquidity, oracle_swap, price_swap, swap_direction, swap_output, OracleSwap,
};
