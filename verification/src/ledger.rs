//! The vault and position ledger: making a vault, depositing into it and
//! withdrawing from it.
//!
//! A deposit or a withdrawal is decided in two steps with the movement of the
//! asset between them. The first step admits the request and says what is to
//! be moved; the second books the amount once it has been moved. `deposit` and
//! `withdraw` are the two steps in one, for a movement that succeeds. No step
//! changes anything when it fails.

use vstd::prelude::*;
use crate::address::Address;
use crate::error::TeraniumError;
use crate::events::{Deposited, VaultInitialized, Withdrawn};
use crate::state::{Mint, TokenAccount, UserPosition, VaultAccount};

verus! {

/// The bumps of the two addresses derived for a new vault.
#[derive(Debug, Clone, Copy, PartialEq, Eq)]
pub struct InitializeVaultBumps {
    pub vault: u8,
    pub vault_authority: u8,
}

/// What the making of a vault reads and writes.
#[derive(Debug, Clone, Copy, PartialEq, Eq)]
pub struct InitializeVault {
    /// The asset presented for the new vault.
    pub mint: Mint,
    /// The address of the new vault.
    pub vault_key: Address,
    /// The record of the new vault, as the store handed it out.
    pub vault: VaultAccount,
    pub bumps: InitializeVaultBumps,
}

/// What a deposit reads and writes.
#[derive(Debug, Clone, Copy, PartialEq, Eq)]
pub struct Deposit {
    /// The depositor.
    pub owner: Address,
    /// The address of the vault.
    pub vault_key: Address,
    pub vault: VaultAccount,
    /// The depositor's position in the vault, unbound before the first deposit.
    pub user_position: UserPosition,
    /// The account that the depositor pays from.
    pub user_token_account: TokenAccount,
    /// The account in which the vault keeps its asset.
    pub vault_token_account: TokenAccount,
}

/// What a withdrawal reads and writes.
#[derive(Debug, Clone, Copy, PartialEq, Eq)]
pub struct Withdraw {
    /// The depositor.
    pub owner: Address,
    /// The address of the vault.
    pub vault_key: Address,
    pub vault: VaultAccount,
    /// The depositor's position in the vault.
    pub user_position: UserPosition,
    /// The account that the depositor is paid into.
    pub user_token_account: TokenAccount,
    /// The account in which the vault keeps its asset.
    pub vault_token_account: TokenAccount,
}

/// What `initialize_vault` makes of a context: the vault keeps `mint`, carries
/// the two bumps, and owes nothing. It fails where `mint` is not the asset
/// presented.
pub open spec fn initialize_vault_spec(ctx: InitializeVault, mint: Address) -> Result<
    InitializeVault,
    TeraniumError,
> {
    if ctx.mint.key != mint {
        Err(TeraniumError::MintMismatch)
    } else {
        Ok(
            InitializeVault {
                vault: VaultAccount {
                    mint,
                    bump: ctx.bumps.vault,
                    authority_bump: ctx.bumps.vault_authority,
                    total_deposits: 0,
                },
                ..ctx
            },
        )
    }
}

/// The record of a vault made.
pub open spec fn initialize_vault_record(after: InitializeVault) -> VaultInitialized {
    VaultInitialized {
        vault: after.vault_key,
        mint: after.vault.mint,
        vault_bump: after.vault.bump,
        authority_bump: after.vault.authority_bump,
    }
}

/// The position that a deposit works on: the given one if it is bound, else a
/// new one, bound to the depositor and the vault and holding nothing.
pub open spec fn position_for_deposit(ctx: Deposit) -> UserPosition {
    if ctx.user_position.is_unbound() {
        UserPosition { owner: ctx.owner, vault: ctx.vault_key, deposited: 0 }
    } else {
        ctx.user_position
    }
}

/// The verdict on a deposit before anything is moved, and the context with
/// the position bound. The tests are made in this order, and the first that
/// fails names the error: the amount is not zero; the depositor's account and
/// the custody account hold the vault's asset; the position is the
/// depositor's; the position is one of this vault.
pub open spec fn authorize_deposit_spec(ctx: Deposit, amount: u64) -> Result<
    Deposit,
    TeraniumError,
> {
    let position = position_for_deposit(ctx);
    if amount == 0 {
        Err(TeraniumError::InvalidAmount)
    } else if ctx.user_token_account.mint != ctx.vault.mint {
        Err(TeraniumError::MintMismatch)
    } else if ctx.vault_token_account.mint != ctx.vault.mint {
        Err(TeraniumError::MintMismatch)
    } else if position.owner != ctx.owner {
        Err(TeraniumError::Unauthorized)
    } else if position.vault != ctx.vault_key {
        Err(TeraniumError::InvalidUserPosition)
    } else {
        Ok(Deposit { user_position: position, ..ctx })
    }
}

/// The context after `amount` has been booked as deposited: the position and
/// the vault both hold `amount` more. It fails where either sum does not fit
/// 64 bits.
pub open spec fn book_deposit_spec(ctx: Deposit, amount: u64) -> Result<Deposit, TeraniumError> {
    if ctx.user_position.deposited + amount > u64::MAX || ctx.vault.total_deposits + amount
        > u64::MAX {
        Err(TeraniumError::MathOverflow)
    } else {
        Ok(
            Deposit {
                user_position: UserPosition {
                    deposited: (ctx.user_position.deposited + amount) as u64,
                    ..ctx.user_position
                },
                vault: VaultAccount {
                    total_deposits: (ctx.vault.total_deposits + amount) as u64,
                    ..ctx.vault
                },
                ..ctx
            },
        )
    }
}

/// The context after a deposit of `amount`: admitted, then booked.
pub open spec fn deposit_spec(ctx: Deposit, amount: u64) -> Result<Deposit, TeraniumError> {
    match authorize_deposit_spec(ctx, amount) {
        Ok(admitted) => book_deposit_spec(admitted, amount),
        Err(e) => Err(e),
    }
}

/// The record of a deposit of `amount` that left the context `after`.
pub open spec fn deposit_record(after: Deposit, amount: u64) -> Deposited {
    Deposited {
        owner: after.owner,
        vault: after.vault_key,
        amount,
        deposited_after: after.user_position.deposited,
        total_deposits_after: after.vault.total_deposits,
    }
}

/// The verdict on a withdrawal before anything is moved. The tests are made in
/// this order, and the first that fails names the error: the amount is not
/// zero; the depositor's account and the custody account hold the vault's
/// asset; the position is the depositor's; the position is one of this vault;
/// the position holds the amount.
pub open spec fn authorize_withdraw_spec(ctx: Withdraw, amount: u64) -> Result<
    (),
    TeraniumError,
> {
    if amount == 0 {
        Err(TeraniumError::InvalidAmount)
    } else if ctx.user_token_account.mint != ctx.vault.mint {
        Err(TeraniumError::MintMismatch)
    } else if ctx.vault_token_account.mint != ctx.vault.mint {
        Err(TeraniumError::MintMismatch)
    } else if ctx.user_position.owner != ctx.owner {
        Err(TeraniumError::Unauthorized)
    } else if ctx.user_position.vault != ctx.vault_key {
        Err(TeraniumError::InvalidUserPosition)
    } else if amount > ctx.user_position.deposited {
        Err(TeraniumError::InsufficientDepositedBalance)
    } else {
        Ok(())
    }
}

/// The context after `amount` has been booked as withdrawn: the position and
/// the vault both hold `amount` less. It fails where either holds less than
/// `amount`.
pub open spec fn book_withdraw_spec(ctx: Withdraw, amount: u64) -> Result<
    Withdraw,
    TeraniumError,
> {
    if ctx.user_position.deposited < amount || ctx.vault.total_deposits < amount {
        Err(TeraniumError::MathOverflow)
    } else {
        Ok(
            Withdraw {
                user_position: UserPosition {
                    deposited: (ctx.user_position.deposited - amount) as u64,
                    ..ctx.user_position
                },
                vault: VaultAccount {
                    total_deposits: (ctx.vault.total_deposits - amount) as u64,
                    ..ctx.vault
                },
                ..ctx
            },
        )
    }
}

/// The context after a withdrawal of `amount`: admitted, then booked.
pub open spec fn withdraw_spec(ctx: Withdraw, amount: u64) -> Result<Withdraw, TeraniumError> {
    match authorize_withdraw_spec(ctx, amount) {
        Ok(_) => book_withdraw_spec(ctx, amount),
        Err(e) => Err(e),
    }
}

/// The record of a withdrawal of `amount` that left the context `after`.
pub open spec fn withdraw_record(after: Withdraw, amount: u64) -> Withdrawn {
    Withdrawn {
        owner: after.owner,
        vault: after.vault_key,
        amount,
        deposited_after: after.user_position.deposited,
        total_deposits_after: after.vault.total_deposits,
    }
}

/// Makes the vault for the asset `mint`: it keeps that asset, carries the bumps
/// of its derived addresses, and owes nothing. Fails with `MintMismatch`, and
/// changes nothing, where `mint` is not the asset presented in the context.
pub fn initialize_vault(ctx: &mut InitializeVault, mint: Address) -> (r: Result<
    VaultInitialized,
    TeraniumError,
>)
    ensures
        match initialize_vault_spec(*old(ctx), mint) {
            Ok(after) => *final(ctx) == after && r == Ok::<VaultInitialized, TeraniumError>(
                initialize_vault_record(after),
            ),
            Err(e) => *final(ctx) == *old(ctx) && r == Err::<VaultInitialized, TeraniumError>(e),
        },
{
    if ctx.mint.key != mint {
        return Err(TeraniumError::MintMismatch);
    }
    ctx.vault.mint = mint;
    ctx.vault.bump = ctx.bumps.vault;
    ctx.vault.authority_bump = ctx.bumps.vault_authority;
    ctx.vault.total_deposits = 0;
    Ok(
        VaultInitialized {
            vault: ctx.vault_key,
            mint,
            vault_bump: ctx.vault.bump,
            authority_bump: ctx.vault.authority_bump,
        },
    )
}

/// Admits a deposit of `amount` before anything is moved, and binds the
/// position to the depositor and the vault if it was not bound. After it the
/// caller moves `amount` from the depositor's account into the vault's custody.
///
/// The owner must never be the all-zero address. A position counts as unbound
/// while its owner is all zero, so one bound to that address is taken for new
/// at every deposit: what it held before is dropped from the position, and
/// stays in the vault's debt. The function does not reject such an owner.
pub fn authorize_deposit(ctx: &mut Deposit, amount: u64) -> (r: Result<(), TeraniumError>)
    ensures
        match authorize_deposit_spec(*old(ctx), amount) {
            Ok(admitted) => *final(ctx) == admitted && r is Ok,
            Err(e) => *final(ctx) == *old(ctx) && r == Err::<(), TeraniumError>(e),
        },
{
    if amount == 0 {
        return Err(TeraniumError::InvalidAmount);
    }
    if ctx.user_token_account.mint != ctx.vault.mint {
        return Err(TeraniumError::MintMismatch);
    }
    if ctx.vault_token_account.mint != ctx.vault.mint {
        return Err(TeraniumError::MintMismatch);
    }
    let position = if ctx.user_position.owner.is_zero() {
        UserPosition { owner: ctx.owner, vault: ctx.vault_key, deposited: 0 }
    } else {
        ctx.user_position
    };
    if position.owner != ctx.owner {
        return Err(TeraniumError::Unauthorized);
    }
    if position.vault != ctx.vault_key {
        return Err(TeraniumError::InvalidUserPosition);
    }
    ctx.user_position = position;
    Ok(())
}

/// Books `amount` as deposited, once it has been moved into the vault's
/// custody: the position and the vault both hold `amount` more. Fails with
/// `MathOverflow`, and changes nothing, where either sum does not fit 64 bits.
pub fn book_deposit(ctx: &mut Deposit, amount: u64) -> (r: Result<Deposited, TeraniumError>)
    ensures
        match book_deposit_spec(*old(ctx), amount) {
            Ok(after) => *final(ctx) == after && r == Ok::<Deposited, TeraniumError>(
                deposit_record(after, amount),
            ),
            Err(e) => *final(ctx) == *old(ctx) && r == Err::<Deposited, TeraniumError>(e),
        },
{
    let deposited = match ctx.user_position.deposited.checked_add(amount) {
        Some(sum) => sum,
        None => {
            return Err(TeraniumError::MathOverflow);
        },
    };
    let total_deposits = match ctx.vault.total_deposits.checked_add(amount) {
        Some(sum) => sum,
        None => {
            return Err(TeraniumError::MathOverflow);
        },
    };
    ctx.user_position.deposited = deposited;
    ctx.vault.total_deposits = total_deposits;
    Ok(
        Deposited {
            owner: ctx.owner,
            vault: ctx.vault_key,
            amount,
            deposited_after: deposited,
            total_deposits_after: total_deposits,
        },
    )
}

/// Deposits `amount` into the vault for the depositor: admits the request,
/// binding the position at the first deposit, and books the amount on the
/// position and on the vault. It stands for a deposit whose asset has been
/// moved; on any failure the context is left as it was.
///
/// The owner must never be the all-zero address. A position counts as unbound
/// while its owner is all zero, so one bound to that address is taken for new
/// at every deposit: what it held before is dropped from the position, and
/// stays in the vault's debt. The function does not reject such an owner.
pub fn deposit(ctx: &mut Deposit, amount: u64) -> (r: Result<Deposited, TeraniumError>)
    ensures
        match deposit_spec(*old(ctx), amount) {
            Ok(after) => *final(ctx) == after && r == Ok::<Deposited, TeraniumError>(
                deposit_record(after, amount),
            ),
            Err(e) => *final(ctx) == *old(ctx) && r == Err::<Deposited, TeraniumError>(e),
        },
{
    let before = *ctx;
    authorize_deposit(ctx, amount)?;
    match book_deposit(ctx, amount) {
        Ok(record) => Ok(record),
        Err(e) => {
            *ctx = before;
            Err(e)
        },
    }
}

/// Admits a withdrawal of `amount` before anything is moved. After it the
/// caller moves `amount` from the vault's custody into the depositor's
/// account, under the vault's own authority.
pub fn authorize_withdraw(ctx: &Withdraw, amount: u64) -> (r: Result<(), TeraniumError>)
    ensures
        r == authorize_withdraw_spec(*ctx, amount),
{
    if amount == 0 {
        return Err(TeraniumError::InvalidAmount);
    }
    if ctx.user_token_account.mint != ctx.vault.mint {
        return Err(TeraniumError::MintMismatch);
    }
    if ctx.vault_token_account.mint != ctx.vault.mint {
        return Err(TeraniumError::MintMismatch);
    }
    if ctx.user_position.owner != ctx.owner {
        return Err(TeraniumError::Unauthorized);
    }
    if ctx.user_position.vault != ctx.vault_key {
        return Err(TeraniumError::InvalidUserPosition);
    }
    if amount > ctx.user_position.deposited {
        return Err(TeraniumError::InsufficientDepositedBalance);
    }
    Ok(())
}

/// Books `amount` as withdrawn, once it has been moved out of the vault's
/// custody: the position and the vault both hold `amount` less. Fails with
/// `MathOverflow`, and changes nothing, where either holds less than `amount`.
pub fn book_withdraw(ctx: &mut Withdraw, amount: u64) -> (r: Result<Withdrawn, TeraniumError>)
    ensures
        match book_withdraw_spec(*old(ctx), amount) {
            Ok(after) => *final(ctx) == after && r == Ok::<Withdrawn, TeraniumError>(
                withdraw_record(after, amount),
            ),
            Err(e) => *final(ctx) == *old(ctx) && r == Err::<Withdrawn, TeraniumError>(e),
        },
{
    let deposited = match ctx.user_position.deposited.checked_sub(amount) {
        Some(rest) => rest,
        None => {
            return Err(TeraniumError::MathOverflow);
        },
    };
    let total_deposits = match ctx.vault.total_deposits.checked_sub(amount) {
        Some(rest) => rest,
        None => {
            return Err(TeraniumError::MathOverflow);
        },
    };
    ctx.user_position.deposited = deposited;
    ctx.vault.total_deposits = total_deposits;
    Ok(
        Withdrawn {
            owner: ctx.owner,
            vault: ctx.vault_key,
            amount,
            deposited_after: deposited,
            total_deposits_after: total_deposits,
        },
    )
}

/// Withdraws `amount` from the vault for the depositor: admits the request and
/// books the amount off the position and off the vault. It stands for a
/// withdrawal whose asset has been moved; on any failure the context is left
/// as it was.
pub fn withdraw(ctx: &mut Withdraw, amount: u64) -> (r: Result<Withdrawn, TeraniumError>)
    ensures
        match withdraw_spec(*old(ctx), amount) {
            Ok(after) => *final(ctx) == after && r == Ok::<Withdrawn, TeraniumError>(
                withdraw_record(after, amount),
            ),
            Err(e) => *final(ctx) == *old(ctx) && r == Err::<Withdrawn, TeraniumError>(e),
        },
{
    authorize_withdraw(ctx, amount)?;
    book_withdraw(ctx, amount)
}

} // verus!
