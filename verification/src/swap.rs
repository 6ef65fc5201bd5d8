//! The exchange between a base vault and the stable vault at the oracle price.
//!
//! A swap moves no depositor's claim: the trader pays one vault and is paid by
//! the other, and both amounts only change what the vaults keep in custody. A
//! vault pays a swap only out of what it keeps beyond its depositors' claims.

use vstd::prelude::*;
use crate::address::{usdc_mint, Address};
use crate::error::TeraniumError;
use crate::events::{OracleSwapped, SwapDirection};
use crate::fixed_point::{
    base_to_usdc,
    base_to_usdc_spec,
    lemma_conversion_is_positive,
    usdc_to_base,
    usdc_to_base_spec,
};
use crate::oracle::{
    validate_observation,
    validate_observation_spec,
    OracleObservation,
    BPS_DENOM,
};
use crate::state::{Mint, TokenAccount, VaultAccount};

verus! {

/// What a swap reads: the two vaults with their custody accounts and assets,
/// and the trader's two holding accounts.
#[derive(Debug, Clone, Copy, PartialEq, Eq)]
pub struct OracleSwap {
    /// The trader.
    pub user: Address,
    /// The address of the base vault.
    pub base_vault_key: Address,
    pub base_vault: VaultAccount,
    /// The account in which the base vault keeps its asset.
    pub base_vault_token_account: TokenAccount,
    pub base_mint: Mint,
    /// The address of the stable vault.
    pub usdc_vault_key: Address,
    pub usdc_vault: VaultAccount,
    /// The account in which the stable vault keeps its asset.
    pub usdc_vault_token_account: TokenAccount,
    pub usdc_mint: Mint,
    /// The account that the trader pays from.
    pub user_from_token_account: TokenAccount,
    /// The account that the trader is paid into.
    pub user_to_token_account: TokenAccount,
}

impl OracleSwap {
    /// The custody balance of the vault that pays a swap in `direction`.
    pub open spec fn paying_custody(self, direction: SwapDirection) -> u64 {
        match direction {
            SwapDirection::BaseToUsdc => self.usdc_vault_token_account.amount,
            SwapDirection::UsdcToBase => self.base_vault_token_account.amount,
        }
    }

    /// The depositors' claims on the vault that pays a swap in `direction`.
    pub open spec fn paying_deposits(self, direction: SwapDirection) -> u64 {
        match direction {
            SwapDirection::BaseToUsdc => self.usdc_vault.total_deposits,
            SwapDirection::UsdcToBase => self.base_vault.total_deposits,
        }
    }
}

/// The verdict on a swap request before any price is read. The tests are made
/// in this order, and the first that fails names the error: the amount is not
/// zero; the tolerance is at most 10000 basis points; the stable asset is the
/// reference stable asset; each vault keeps the asset it is presented with; the
/// base asset is not the stable asset; each custody account holds its vault's
/// asset; the trader's two accounts hold the base and the stable asset, one
/// each, which gives the direction.
pub open spec fn swap_direction_spec(
    ctx: OracleSwap,
    amount: u64,
    max_slippage_bps: u16,
) -> Result<SwapDirection, TeraniumError> {
    let from_mint = ctx.user_from_token_account.mint;
    let to_mint = ctx.user_to_token_account.mint;
    if amount == 0 {
        Err(TeraniumError::InvalidAmount)
    } else if max_slippage_bps > BPS_DENOM {
        Err(TeraniumError::InvalidSlippageBps)
    } else if ctx.usdc_mint.key != usdc_mint() {
        Err(TeraniumError::InvalidUsdcMint)
    } else if ctx.usdc_vault.mint != ctx.usdc_mint.key {
        Err(TeraniumError::MintMismatch)
    } else if ctx.base_vault.mint != ctx.base_mint.key {
        Err(TeraniumError::MintMismatch)
    } else if ctx.base_vault.mint == ctx.usdc_mint.key {
        Err(TeraniumError::InvalidSwapPair)
    } else if ctx.base_vault_token_account.mint != ctx.base_vault.mint {
        Err(TeraniumError::MintMismatch)
    } else if ctx.usdc_vault_token_account.mint != ctx.usdc_vault.mint {
        Err(TeraniumError::MintMismatch)
    } else if from_mint == ctx.base_mint.key && to_mint == ctx.usdc_mint.key {
        Ok(SwapDirection::BaseToUsdc)
    } else if from_mint == ctx.usdc_mint.key && to_mint == ctx.base_mint.key {
        Ok(SwapDirection::UsdcToBase)
    } else {
        Err(TeraniumError::InvalidSwapPair)
    }
}

/// What a swap of `amount` in `direction` pays at the price `price * 10^expo`:
/// the converted amount, which must not be zero. The conversion rejects a zero
/// output itself; the swap names the rejection as a step of its own.
pub open spec fn swap_output_spec(
    direction: SwapDirection,
    amount: u64,
    price: u128,
    expo: i32,
    base_decimals: u8,
    usdc_decimals: u8,
) -> Result<u128, TeraniumError> {
    let converted = match direction {
        SwapDirection::BaseToUsdc => base_to_usdc_spec(
            amount as u128,
            price,
            expo,
            base_decimals as u32,
            usdc_decimals as u32,
        ),
        SwapDirection::UsdcToBase => usdc_to_base_spec(
            amount as u128,
            price,
            expo,
            base_decimals as u32,
            usdc_decimals as u32,
        ),
    };
    match converted {
        Ok(out) => if out == 0 {
            Err(TeraniumError::SwapZeroOut)
        } else {
            Ok(out)
        },
        Err(e) => Err(e),
    }
}

/// Whether a vault that keeps `custody` and owes its depositors
/// `total_deposits` can pay `amount_out`: what is left covers the deposits.
pub open spec fn vault_can_pay(custody: u64, total_deposits: u64, amount_out: u128) -> bool {
    amount_out <= custody && custody - amount_out >= total_deposits
}

/// What `check_vault_liquidity` returns.
pub open spec fn check_vault_liquidity_spec(
    custody: u64,
    total_deposits: u64,
    amount_out: u128,
) -> Result<u64, TeraniumError> {
    if vault_can_pay(custody, total_deposits, amount_out) {
        Ok(amount_out as u64)
    } else {
        Err(TeraniumError::InsufficientVaultLiquidity)
    }
}

/// The record of a swap of `amount` in `direction` that pays `amount_out` at
/// the price of `reading`.
pub open spec fn swap_record(
    ctx: OracleSwap,
    direction: SwapDirection,
    amount: u64,
    amount_out: u64,
    reading: OracleObservation,
) -> OracleSwapped {
    OracleSwapped {
        user: ctx.user,
        base_vault: ctx.base_vault_key,
        usdc_vault: ctx.usdc_vault_key,
        from_mint: ctx.user_from_token_account.mint,
        to_mint: ctx.user_to_token_account.mint,
        amount_in: amount,
        amount_out,
        oracle_price: reading.price,
        oracle_conf: reading.conf,
        oracle_expo: reading.expo,
        direction: direction.code(),
    }
}

/// What `price_swap` returns: the reading is checked, then the output is
/// computed, then the paying vault's liquidity is checked; the first failure
/// is the result.
pub open spec fn price_swap_spec(
    ctx: OracleSwap,
    direction: SwapDirection,
    amount: u64,
    max_slippage_bps: u16,
    observation: Option<OracleObservation>,
    now: i64,
) -> Result<OracleSwapped, TeraniumError> {
    match validate_observation_spec(observation, now, max_slippage_bps) {
        Err(e) => Err(e),
        Ok(reading) => match swap_output_spec(
            direction,
            amount,
            reading.price as u128,
            reading.expo,
            ctx.base_mint.decimals,
            ctx.usdc_mint.decimals,
        ) {
            Err(e) => Err(e),
            Ok(out) => match check_vault_liquidity_spec(
                ctx.paying_custody(direction),
                ctx.paying_deposits(direction),
                out,
            ) {
                Err(e) => Err(e),
                Ok(amount_out) => Ok(swap_record(ctx, direction, amount, amount_out, reading)),
            },
        },
    }
}

/// What `oracle_swap` returns: the request is checked, which gives the
/// direction, and the swap is priced in that direction; the first failure is
/// the result.
pub open spec fn oracle_swap_spec(
    ctx: OracleSwap,
    amount: u64,
    max_slippage_bps: u16,
    observation: Option<OracleObservation>,
    now: i64,
) -> Result<OracleSwapped, TeraniumError> {
    match swap_direction_spec(ctx, amount, max_slippage_bps) {
        Err(e) => Err(e),
        Ok(direction) => price_swap_spec(
            ctx,
            direction,
            amount,
            max_slippage_bps,
            observation,
            now,
        ),
    }
}

/// Checks a swap request before any price is read, and returns the direction
/// that the trader's two accounts give.
pub fn swap_direction(ctx: &OracleSwap, amount: u64, max_slippage_bps: u16) -> (r: Result<
    SwapDirection,
    TeraniumError,
>)
    ensures
        r == swap_direction_spec(*ctx, amount, max_slippage_bps),
{
    if amount == 0 {
        return Err(TeraniumError::InvalidAmount);
    }
    if max_slippage_bps > 10_000 {
        return Err(TeraniumError::InvalidSlippageBps);
    }
    if ctx.usdc_mint.key != usdc_mint() {
        return Err(TeraniumError::InvalidUsdcMint);
    }
    if ctx.usdc_vault.mint != ctx.usdc_mint.key {
        return Err(TeraniumError::MintMismatch);
    }
    if ctx.base_vault.mint != ctx.base_mint.key {
        return Err(TeraniumError::MintMismatch);
    }
    if ctx.base_vault.mint == ctx.usdc_mint.key {
        return Err(TeraniumError::InvalidSwapPair);
    }
    if ctx.base_vault_token_account.mint != ctx.base_vault.mint {
        return Err(TeraniumError::MintMismatch);
    }
    if ctx.usdc_vault_token_account.mint != ctx.usdc_vault.mint {
        return Err(TeraniumError::MintMismatch);
    }
    let from_mint = ctx.user_from_token_account.mint;
    let to_mint = ctx.user_to_token_account.mint;
    if from_mint == ctx.base_mint.key && to_mint == ctx.usdc_mint.key {
        Ok(SwapDirection::BaseToUsdc)
    } else if from_mint == ctx.usdc_mint.key && to_mint == ctx.base_mint.key {
        Ok(SwapDirection::UsdcToBase)
    } else {
        Err(TeraniumError::InvalidSwapPair)
    }
}

/// Computes what a swap of `amount` in `direction` pays at the price
/// `price * 10^expo`. A swap that would pay nothing is rejected with
/// `SwapZeroOut`, as the conversion of its amount is.
pub fn swap_output(
    direction: SwapDirection,
    amount: u64,
    price: u128,
    expo: i32,
    base_decimals: u8,
    usdc_decimals: u8,
) -> (r: Result<u128, TeraniumError>)
    ensures
        r == swap_output_spec(direction, amount, price, expo, base_decimals, usdc_decimals),
{
    proof {
        lemma_conversion_is_positive(
            amount as u128,
            price,
            expo,
            base_decimals as u32,
            usdc_decimals as u32,
        );
    }
    match direction {
        SwapDirection::BaseToUsdc => base_to_usdc(
            amount as u128,
            price,
            expo,
            base_decimals as u32,
            usdc_decimals as u32,
        ),
        SwapDirection::UsdcToBase => usdc_to_base(
            amount as u128,
            price,
            expo,
            base_decimals as u32,
            usdc_decimals as u32,
        ),
    }
}

/// Checks that a vault which keeps `custody` and owes its depositors
/// `total_deposits` can pay `amount_out`, and returns the amount in the width
/// of a balance.
pub fn check_vault_liquidity(custody: u64, total_deposits: u64, amount_out: u128) -> (r: Result<
    u64,
    TeraniumError,
>)
    ensures
        r == check_vault_liquidity_spec(custody, total_deposits, amount_out),
{
    if amount_out > custody as u128 {
        return Err(TeraniumError::InsufficientVaultLiquidity);
    }
    let payout: u64 = amount_out as u64;
    if custody - payout < total_deposits {
        return Err(TeraniumError::InsufficientVaultLiquidity);
    }
    Ok(payout)
}

/// Prices a swap of `amount` in `direction`, given the reading of the price
/// feed and the current time, and returns its record: the reading must be
/// admissible, the output must not be zero, and the paying vault must be able
/// to pay it out of what it keeps beyond its deposits.
///
/// It is the part of a swap that follows the reading of the feed and the
/// clock; `swap_direction` is the part before.
pub fn price_swap(
    ctx: &OracleSwap,
    direction: SwapDirection,
    amount: u64,
    max_slippage_bps: u16,
    observation: Option<OracleObservation>,
    now: i64,
) -> (r: Result<OracleSwapped, TeraniumError>)
    ensures
        r == price_swap_spec(*ctx, direction, amount, max_slippage_bps, observation, now),
{
    let reading = validate_observation(observation, now, max_slippage_bps)?;
    let out = swap_output(
        direction,
        amount,
        reading.price as u128,
        reading.expo,
        ctx.base_mint.decimals,
        ctx.usdc_mint.decimals,
    )?;
    let (custody, total_deposits) = match direction {
        SwapDirection::BaseToUsdc => (
            ctx.usdc_vault_token_account.amount,
            ctx.usdc_vault.total_deposits,
        ),
        SwapDirection::UsdcToBase => (
            ctx.base_vault_token_account.amount,
            ctx.base_vault.total_deposits,
        ),
    };
    let amount_out = check_vault_liquidity(custody, total_deposits, out)?;
    Ok(
        OracleSwapped {
            user: ctx.user,
            base_vault: ctx.base_vault_key,
            usdc_vault: ctx.usdc_vault_key,
            from_mint: ctx.user_from_token_account.mint,
            to_mint: ctx.user_to_token_account.mint,
            amount_in: amount,
            amount_out,
            oracle_price: reading.price,
            oracle_conf: reading.conf,
            oracle_expo: reading.expo,
            direction: direction.code(),
        },
    )
}

/// Decides a swap of `amount` from the trader's source account, given the
/// reading of the price feed and the current time, and returns its record.
///
/// The record names both legs: the trader pays `amount_in` into the vault of
/// the source asset, and the vault of the destination asset pays `amount_out`.
/// Nothing is changed here; the caller moves the two amounts, and no ledger
/// balance changes by a swap.
pub fn oracle_swap(
    ctx: &OracleSwap,
    amount: u64,
    max_slippage_bps: u16,
    observation: Option<OracleObservation>,
    now: i64,
) -> (r: Result<OracleSwapped, TeraniumError>)
    ensures
        r == oracle_swap_spec(*ctx, amount, max_slippage_bps, observation, now),
{
    let direction = swap_direction(ctx, amount, max_slippage_bps)?;
    price_swap(ctx, direction, amount, max_slippage_bps, observation, now)
}

/// No swap pays nothing: an output that is returned is above zero, and so is
/// the amount that an accepted swap pays out.
pub proof fn lemma_swap_never_pays_nothing(
    ctx: OracleSwap,
    direction: SwapDirection,
    amount: u64,
    max_slippage_bps: u16,
    observation: Option<OracleObservation>,
    now: i64,
    price: u128,
    expo: i32,
)
    ensures
        swap_output_spec(
            direction,
            amount,
            price,
            expo,
            ctx.base_mint.decimals,
            ctx.usdc_mint.decimals,
        ) matches Ok(out) ==> out > 0,
        price_swap_spec(ctx, direction, amount, max_slippage_bps, observation, now) matches Ok(
            swap,
        ) ==> swap.amount_out > 0,
        oracle_swap_spec(ctx, amount, max_slippage_bps, observation, now) matches Ok(swap)
            ==> swap.amount_out > 0,
{
}

} // verus!
