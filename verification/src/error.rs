//! The failures that the vault operations report.

use vstd::prelude::*;

verus! {

/// Why an operation was rejected. Every rejection happens before anything is
/// committed, so a rejected operation leaves the ledger as it was.
#[derive(Debug, Clone, Copy, PartialEq, Eq, Structural)]
pub enum TeraniumError {
    /// The amount of a deposit, withdrawal or swap is zero.
    InvalidAmount,
    /// An account holds another asset than the vault it is used with.
    MintMismatch,
    /// The position belongs to another owner than the caller.
    Unauthorized,
    /// The position belongs to another vault than the one addressed.
    InvalidUserPosition,
    /// A withdrawal asks for more than the position holds.
    InsufficientDepositedBalance,
    /// An intermediate or final value does not fit its integer width.
    MathOverflow,
    /// The slippage tolerance is above 10000 basis points.
    InvalidSlippageBps,
    /// The price feed carries no price.
    OracleNoPrice,
    /// The price was published too long before the current time.
    OracleStale,
    /// The price is zero or negative.
    OracleInvalidPrice,
    /// The confidence is negative.
    OracleInvalidConfidence,
    /// The confidence is too wide for the caller's tolerance.
    OracleSlippageExceeded,
    /// The stable vault's asset is not the reference stable asset.
    InvalidUsdcMint,
    /// The two sides of a swap are not one base and one stable account.
    InvalidSwapPair,
    /// The swap would pay out nothing.
    SwapZeroOut,
    /// Paying the swap would leave the vault with less than it owes depositors.
    InsufficientVaultLiquidity,
}

impl TeraniumError {
    /// The text shown for each failure.
    pub open spec fn message_text(self) -> Seq<char> {
        match self {
            TeraniumError::InvalidAmount => "Invalid amount"@,
            TeraniumError::MintMismatch => "Mint mismatch"@,
            TeraniumError::Unauthorized => "Unauthorized"@,
            TeraniumError::InvalidUserPosition => "Invalid user position"@,
            TeraniumError::InsufficientDepositedBalance => "Insufficient deposited balance"@,
            TeraniumError::MathOverflow => "Math overflow"@,
            TeraniumError::InvalidSlippageBps => "Invalid slippage bps"@,
            TeraniumError::OracleNoPrice => "Oracle has no price"@,
            TeraniumError::OracleStale => "Oracle price is stale"@,
            TeraniumError::OracleInvalidPrice => "Oracle price invalid"@,
            TeraniumError::OracleInvalidConfidence => "Oracle confidence invalid"@,
            TeraniumError::OracleSlippageExceeded => "Oracle slippage exceeded"@,
            TeraniumError::InvalidUsdcMint => "Invalid USDC mint"@,
            TeraniumError::InvalidSwapPair => "Invalid swap pair"@,
            TeraniumError::SwapZeroOut => "Swap would produce zero output"@,
            TeraniumError::InsufficientVaultLiquidity => "Insufficient vault liquidity"@,
        }
    }

    /// Returns the text shown for this failure.
    pub fn message(&self) -> (text: &'static str)
        ensures
            text@ == self.message_text(),
    {
        match self {
            TeraniumError::InvalidAmount => "Invalid amount",
            TeraniumError::MintMismatch => "Mint mismatch",
            TeraniumError::Unauthorized => "Unauthorized",
            TeraniumError::InvalidUserPosition => "Invalid user position",
            TeraniumError::InsufficientDepositedBalance => "Insufficient deposited balance",
            TeraniumError::MathOverflow => "Math overflow",
            TeraniumError::InvalidSlippageBps => "Invalid slippage bps",
            TeraniumError::OracleNoPrice => "Oracle has no price",
            TeraniumError::OracleStale => "Oracle price is stale",
            TeraniumError::OracleInvalidPrice => "Oracle price invalid",
            TeraniumError::OracleInvalidConfidence => "Oracle confidence invalid",
            TeraniumError::OracleSlippageExceeded => "Oracle slippage exceeded",
            TeraniumError::InvalidUsdcMint => "Invalid USDC mint",
            TeraniumError::InvalidSwapPair => "Invalid swap pair",
            TeraniumError::SwapZeroOut => "Swap would produce zero output",
            TeraniumError::InsufficientVaultLiquidity => "Insufficient vault liquidity",
        }
    }
}

} // verus!
