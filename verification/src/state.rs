//! The records of the ledger, and what the operations read of the accounts
//! around them.

use vstd::prelude::*;
use crate::address::Address;

verus! {

/// One asset pool: the asset it keeps and the sum of what it owes its
/// depositors.
#[derive(Debug, Clone, Copy, PartialEq, Eq)]
pub struct VaultAccount {
    /// The asset that this vault keeps. It is set once, when the vault is made.
    pub mint: Address,
    /// The bump of the vault's own derived address.
    pub bump: u8,
    /// The bump of the derived authority that signs for the vault's custody.
    pub authority_bump: u8,
    /// The sum of all depositors' claims on the vault's custody.
    pub total_deposits: u64,
}

/// One depositor's claim on one vault.
#[derive(Debug, Clone, Copy, PartialEq, Eq)]
pub struct UserPosition {
    /// The depositor. All zero until the first deposit binds the position.
    pub owner: Address,
    /// The vault that owes the claim.
    pub vault: Address,
    /// What the vault owes the depositor.
    pub deposited: u64,
}

impl UserPosition {
    /// Whether the position has not been bound to an owner yet.
    pub open spec fn is_unbound(self) -> bool {
        self.owner.is_zero()
    }

    /// A position that is not bound yet holds nothing.
    pub open spec fn well_formed(self) -> bool {
        self.is_unbound() ==> self.deposited == 0
    }

    /// What the position claims from the vault at `vault_key`: its balance if
    /// it is a position of that vault, else nothing.
    pub open spec fn claim_on(self, vault_key: Address) -> nat {
        if self.vault == vault_key {
            self.deposited as nat
        } else {
            0
        }
    }
}

/// What the operations read of an asset: its address and the decimal places of
/// its smallest unit.
#[derive(Debug, Clone, Copy, PartialEq, Eq)]
pub struct Mint {
    pub key: Address,
    pub decimals: u8,
}

/// What the operations read of a holding account: the asset it holds and how
/// much of it.
#[derive(Debug, Clone, Copy, PartialEq, Eq)]
pub struct TokenAccount {
    pub mint: Address,
    pub amount: u64,
}

} // verus!
