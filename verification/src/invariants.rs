//! What holds of the ledger whatever operations succeed: a vault owes exactly
//! the sum of its positions, and keeps at least that much in custody.
//!
//! The laws speak of one vault, of all the positions that the store holds, and
//! of the vault's custody balance. The first ones say that one successful
//! operation, with its asset moved as the operation asked, leaves a consistent
//! ledger consistent; the last one says so of any sequence of them.

use vstd::prelude::*;
use crate::address::Address;
use crate::error::TeraniumError;
use crate::events::{OracleSwapped, SwapDirection};
use crate::ledger::{
    authorize_deposit_spec,
    authorize_withdraw_spec,
    deposit_spec,
    initialize_vault_spec,
    withdraw_spec,
    Deposit,
    InitializeVault,
    Withdraw,
};
use crate::oracle::OracleObservation;
use crate::state::{TokenAccount, UserPosition, VaultAccount};
use crate::swap::{oracle_swap_spec, OracleSwap};

verus! {

/// The sum of what the positions claim from the vault at `vault_key`.
pub open spec fn total_claims(positions: Seq<UserPosition>, vault_key: Address) -> nat
    decreases positions.len(),
{
    if positions.len() == 0 {
        0
    } else {
        total_claims(positions.drop_last(), vault_key) + positions.last().claim_on(vault_key)
    }
}

/// Whether the vault at `vault_key` is consistent with the positions of the
/// store and with its custody balance: every position is well formed, the
/// vault owes exactly what its positions claim, and it keeps at least that.
pub open spec fn vault_is_backed(
    vault: VaultAccount,
    vault_key: Address,
    positions: Seq<UserPosition>,
    custody: int,
) -> bool {
    &&& forall|i: int| 0 <= i < positions.len() ==> (#[trigger] positions[i]).well_formed()
    &&& total_claims(positions, vault_key) == vault.total_deposits
    &&& vault.total_deposits <= custody
}

/// Replacing one position changes the sum of the claims by the difference of
/// the two claims, and no position claims more than the sum.
proof fn lemma_claims_after_update(
    positions: Seq<UserPosition>,
    vault_key: Address,
    i: int,
    position: UserPosition,
)
    requires
        0 <= i < positions.len(),
    ensures
        total_claims(positions.update(i, position), vault_key) == total_claims(
            positions,
            vault_key,
        ) - positions[i].claim_on(vault_key) + position.claim_on(vault_key),
        positions[i].claim_on(vault_key) <= total_claims(positions, vault_key),
    decreases positions.len(),
{
    let updated = positions.update(i, position);
    if i == positions.len() - 1 {
        assert(updated.drop_last() =~= positions.drop_last());
    } else {
        assert(updated.drop_last() =~= positions.drop_last().update(i, position));
        lemma_claims_after_update(positions.drop_last(), vault_key, i, position);
    }
}

/// Replacing one position by a well-formed one leaves a store of well-formed
/// positions one of well-formed positions.
proof fn lemma_well_formed_after_update(
    positions: Seq<UserPosition>,
    i: int,
    position: UserPosition,
)
    requires
        0 <= i < positions.len(),
        forall|j: int| 0 <= j < positions.len() ==> (#[trigger] positions[j]).well_formed(),
        position.well_formed(),
    ensures
        forall|j: int|
            0 <= j < positions.update(i, position).len() ==> (#[trigger] positions.update(
                i,
                position,
            )[j]).well_formed(),
{
    let updated = positions.update(i, position);
    assert forall|j: int| 0 <= j < updated.len() implies (#[trigger] updated[j]).well_formed() by {
        if j != i {
            assert(positions[j].well_formed());
        }
    }
}

/// Where the vault owes exactly what its positions claim, no position of it
/// holds more than the vault owes.
pub proof fn lemma_position_within_total_deposits(
    vault: VaultAccount,
    vault_key: Address,
    positions: Seq<UserPosition>,
    custody: int,
    i: int,
)
    requires
        vault_is_backed(vault, vault_key, positions, custody),
        0 <= i < positions.len(),
        positions[i].vault == vault_key,
    ensures
        positions[i].deposited <= vault.total_deposits,
{
    lemma_claims_after_update(positions, vault_key, i, positions[i]);
}

/// A position that is not bound yet claims nothing, so the store may hold it
/// before its first deposit without any vault owing more.
pub proof fn lemma_unbound_position_claims_nothing(
    positions: Seq<UserPosition>,
    vault_key: Address,
    position: UserPosition,
)
    requires
        position.is_unbound(),
        position.well_formed(),
    ensures
        total_claims(positions.push(position), vault_key) == total_claims(positions, vault_key),
{
    assert(positions.push(position).drop_last() =~= positions);
}

/// A vault that has just been made is consistent with any store none of whose
/// positions claims from it.
pub proof fn lemma_new_vault_is_backed(
    ctx: InitializeVault,
    mint: Address,
    positions: Seq<UserPosition>,
    custody: nat,
)
    requires
        forall|i: int| 0 <= i < positions.len() ==> (#[trigger] positions[i]).well_formed(),
        total_claims(positions, ctx.vault_key) == 0,
    ensures
        initialize_vault_spec(ctx, mint) matches Ok(after) ==> vault_is_backed(
            after.vault,
            after.vault_key,
            positions,
            custody as int,
        ),
{
}

/// A successful deposit keeps the vault consistent: with the position at index
/// `i` of the store replaced by the one that the deposit leaves, and the
/// custody grown by the amount deposited, the vault still owes exactly what its
/// positions claim and keeps no less.
///
/// On such a ledger a deposit that is admitted is also booked, provided the
/// custody can hold the amount: no sum overflows where the custody does not.
///
/// The depositor must not be the all-zero address: a position bound to it
/// cannot be told from an unbound one.
pub proof fn lemma_deposit_keeps_vault_backed(
    ctx: Deposit,
    amount: u64,
    positions: Seq<UserPosition>,
    i: int,
    custody: int,
)
    requires
        0 <= i < positions.len(),
        positions[i] == ctx.user_position,
        vault_is_backed(ctx.vault, ctx.vault_key, positions, custody),
        !ctx.owner.is_zero(),
    ensures
        deposit_spec(ctx, amount) matches Ok(after) ==> vault_is_backed(
            after.vault,
            after.vault_key,
            positions.update(i, after.user_position),
            custody + amount,
        ),
        authorize_deposit_spec(ctx, amount) is Ok && custody + amount <= u64::MAX ==> deposit_spec(
            ctx,
            amount,
        ) is Ok,
{
    lemma_claims_after_update(positions, ctx.vault_key, i, ctx.user_position);
    if let Ok(after) = deposit_spec(ctx, amount) {
        lemma_claims_after_update(positions, ctx.vault_key, i, after.user_position);
        lemma_well_formed_after_update(positions, i, after.user_position);
    }
}

/// A successful withdrawal keeps the vault consistent: with the position at
/// index `i` of the store replaced by the one that the withdrawal leaves, and
/// the custody less by the amount withdrawn, the vault still owes exactly what
/// its positions claim and keeps no less.
///
/// On such a ledger a withdrawal that is admitted is also booked: the vault
/// owes at least what any of its positions holds.
pub proof fn lemma_withdraw_keeps_vault_backed(
    ctx: Withdraw,
    amount: u64,
    positions: Seq<UserPosition>,
    i: int,
    custody: int,
)
    requires
        0 <= i < positions.len(),
        positions[i] == ctx.user_position,
        vault_is_backed(ctx.vault, ctx.vault_key, positions, custody),
    ensures
        withdraw_spec(ctx, amount) matches Ok(after) ==> vault_is_backed(
            after.vault,
            after.vault_key,
            positions.update(i, after.user_position),
            custody - amount,
        ),
        authorize_withdraw_spec(ctx, amount) is Ok ==> withdraw_spec(ctx, amount) is Ok,
{
    lemma_claims_after_update(positions, ctx.vault_key, i, ctx.user_position);
    if let Ok(after) = withdraw_spec(ctx, amount) {
        lemma_claims_after_update(positions, ctx.vault_key, i, after.user_position);
        lemma_well_formed_after_update(positions, i, after.user_position);
    }
}

/// A deposit followed by a withdrawal of the same amount by the same owner
/// restores the ledger: the withdrawal succeeds, the vault is as it was before
/// the deposit, and so is the position, but that a position which the deposit
/// bound stays bound, holding nothing.
pub proof fn lemma_deposit_then_withdraw_restores(ctx: Deposit, amount: u64)
    requires
        ctx.user_position.well_formed(),
    ensures
        deposit_spec(ctx, amount) matches Ok(deposited) ==> (withdraw_spec(
            withdraw_after(deposited),
            amount,
        ) matches Ok(withdrawn) && {
            &&& withdrawn.vault == ctx.vault
            &&& withdrawn.user_position.deposited == ctx.user_position.deposited
            &&& withdrawn.user_position.owner == ctx.owner
            &&& withdrawn.user_position.vault == ctx.vault_key
            &&& !ctx.user_position.is_unbound() ==> withdrawn.user_position == ctx.user_position
            &&& withdrawn.owner == ctx.owner
            &&& withdrawn.vault_key == ctx.vault_key
        }),
{
}

/// The withdrawal that the depositor of `deposited` makes next, on the same
/// vault, position and accounts.
pub open spec fn withdraw_after(deposited: Deposit) -> Withdraw {
    Withdraw {
        owner: deposited.owner,
        vault_key: deposited.vault_key,
        vault: deposited.vault,
        user_position: deposited.user_position,
        user_token_account: deposited.user_token_account,
        vault_token_account: deposited.vault_token_account,
    }
}

/// A withdrawal of more than the position holds always fails. Where the
/// accounts hold the vault's asset and the position is the caller's own in
/// this vault, the failure is `InsufficientDepositedBalance`.
pub proof fn lemma_overdraw_is_rejected(ctx: Withdraw, amount: u64)
    requires
        amount > ctx.user_position.deposited,
    ensures
        withdraw_spec(ctx, amount) is Err,
        authorize_withdraw_spec(ctx, amount) is Err,
        (ctx.user_token_account.mint == ctx.vault.mint && ctx.vault_token_account.mint
            == ctx.vault.mint && ctx.user_position.owner == ctx.owner && ctx.user_position.vault
            == ctx.vault_key) ==> withdraw_spec(ctx, amount) == Err::<Withdraw, TeraniumError>(
            TeraniumError::InsufficientDepositedBalance,
        ),
{
}

/// A deposit of nothing always fails with `InvalidAmount`, and already at its
/// admission, before anything is moved.
pub proof fn lemma_zero_deposit_is_rejected(ctx: Deposit)
    ensures
        authorize_deposit_spec(ctx, 0) == Err::<Deposit, TeraniumError>(
            TeraniumError::InvalidAmount,
        ),
        deposit_spec(ctx, 0) == Err::<Deposit, TeraniumError>(TeraniumError::InvalidAmount),
{
}

/// What the base vault keeps in custody once the two legs of `swap` have been
/// moved.
pub open spec fn base_custody_after(ctx: OracleSwap, swap: OracleSwapped) -> int {
    if swap.direction == SwapDirection::BaseToUsdc.code() {
        ctx.base_vault_token_account.amount + swap.amount_in
    } else {
        ctx.base_vault_token_account.amount - swap.amount_out
    }
}

/// What the stable vault keeps in custody once the two legs of `swap` have been
/// moved.
pub open spec fn usdc_custody_after(ctx: OracleSwap, swap: OracleSwapped) -> int {
    if swap.direction == SwapDirection::BaseToUsdc.code() {
        ctx.usdc_vault_token_account.amount - swap.amount_out
    } else {
        ctx.usdc_vault_token_account.amount + swap.amount_in
    }
}

/// An accepted swap never draws on deposits. It changes no vault's debt and no
/// position; after its two legs the paying vault still keeps at least what it
/// owes, whatever it kept before, and both vaults are consistent if they were.
pub proof fn lemma_swap_keeps_vaults_backed(
    ctx: OracleSwap,
    amount: u64,
    max_slippage_bps: u16,
    observation: Option<OracleObservation>,
    now: i64,
    positions: Seq<UserPosition>,
)
    ensures
        oracle_swap_spec(ctx, amount, max_slippage_bps, observation, now) matches Ok(swap) ==> {
            &&& swap.direction == SwapDirection::BaseToUsdc.code() ==> usdc_custody_after(
                ctx,
                swap,
            ) >= ctx.usdc_vault.total_deposits
            &&& swap.direction == SwapDirection::UsdcToBase.code() ==> base_custody_after(
                ctx,
                swap,
            ) >= ctx.base_vault.total_deposits
            &&& vault_is_backed(
                ctx.base_vault,
                ctx.base_vault_key,
                positions,
                ctx.base_vault_token_account.amount as int,
            ) ==> vault_is_backed(
                ctx.base_vault,
                ctx.base_vault_key,
                positions,
                base_custody_after(ctx, swap),
            )
            &&& vault_is_backed(
                ctx.usdc_vault,
                ctx.usdc_vault_key,
                positions,
                ctx.usdc_vault_token_account.amount as int,
            ) ==> vault_is_backed(
                ctx.usdc_vault,
                ctx.usdc_vault_key,
                positions,
                usdc_custody_after(ctx, swap),
            )
        },
{
}

/// All that the store and the custody hold of one vault.
pub struct VaultBooks {
    /// The address of the vault.
    pub vault_key: Address,
    pub vault: VaultAccount,
    /// The positions that the store holds, of this vault and of others.
    pub positions: Seq<UserPosition>,
    /// What the vault keeps in custody.
    pub custody: int,
}

impl VaultBooks {
    /// Whether the vault owes exactly what its positions claim and keeps at
    /// least that.
    pub open spec fn balanced(self) -> bool {
        vault_is_backed(self.vault, self.vault_key, self.positions, self.custody)
    }
}

/// The side that a vault takes in a swap.
pub enum SwapSide {
    Base,
    Usdc,
}

/// One operation that touches a vault.
pub enum Operation {
    /// The store hands out a new position, not bound yet and holding nothing.
    OpenPosition { position: UserPosition },
    /// The owner deposits `amount` on the position at `index`.
    Deposit {
        index: int,
        owner: Address,
        user_token_account: TokenAccount,
        vault_token_account: TokenAccount,
        amount: u64,
    },
    /// The owner withdraws `amount` from the position at `index`.
    Withdraw {
        index: int,
        owner: Address,
        user_token_account: TokenAccount,
        vault_token_account: TokenAccount,
        amount: u64,
    },
    /// A swap in which the vault takes the given side.
    Swap {
        side: SwapSide,
        ctx: OracleSwap,
        amount: u64,
        max_slippage_bps: u16,
        observation: Option<OracleObservation>,
        now: i64,
    },
}

/// The context in which a deposit is made on the books.
pub open spec fn deposit_on(
    books: VaultBooks,
    index: int,
    owner: Address,
    user_token_account: TokenAccount,
    vault_token_account: TokenAccount,
) -> Deposit {
    Deposit {
        owner,
        vault_key: books.vault_key,
        vault: books.vault,
        user_position: books.positions[index],
        user_token_account,
        vault_token_account,
    }
}

/// The context in which a withdrawal is made on the books.
pub open spec fn withdraw_on(
    books: VaultBooks,
    index: int,
    owner: Address,
    user_token_account: TokenAccount,
    vault_token_account: TokenAccount,
) -> Withdraw {
    Withdraw {
        owner,
        vault_key: books.vault_key,
        vault: books.vault,
        user_position: books.positions[index],
        user_token_account,
        vault_token_account,
    }
}

/// Whether a swap reads the vault of the books on the given side: its address,
/// its record, and in its custody account what the vault keeps.
pub open spec fn swap_reads(books: VaultBooks, side: SwapSide, ctx: OracleSwap) -> bool {
    match side {
        SwapSide::Base => {
            &&& ctx.base_vault_key == books.vault_key
            &&& ctx.base_vault == books.vault
            &&& ctx.base_vault_token_account.amount == books.custody
        },
        SwapSide::Usdc => {
            &&& ctx.usdc_vault_key == books.vault_key
            &&& ctx.usdc_vault == books.vault
            &&& ctx.usdc_vault_token_account.amount == books.custody
        },
    }
}

/// The books after one operation that succeeds, with its asset moved as the
/// operation asked; `None` for an operation that fails or does not fit the
/// books. A deposit by the all-zero address is left out.
pub open spec fn books_after(books: VaultBooks, operation: Operation) -> Option<VaultBooks> {
    match operation {
        Operation::OpenPosition { position } => if position.is_unbound()
            && position.deposited == 0 {
            Some(VaultBooks { positions: books.positions.push(position), ..books })
        } else {
            None
        },
        Operation::Deposit { index, owner, user_token_account, vault_token_account, amount } => {
            let ctx = deposit_on(books, index, owner, user_token_account, vault_token_account);
            match deposit_spec(ctx, amount) {
                Ok(after) if 0 <= index < books.positions.len() && !owner.is_zero() => Some(
                    VaultBooks {
                        vault: after.vault,
                        positions: books.positions.update(index, after.user_position),
                        custody: books.custody + amount,
                        ..books
                    },
                ),
                _ => None,
            }
        },
        Operation::Withdraw { index, owner, user_token_account, vault_token_account, amount } => {
            let ctx = withdraw_on(books, index, owner, user_token_account, vault_token_account);
            match withdraw_spec(ctx, amount) {
                Ok(after) if 0 <= index < books.positions.len() => Some(
                    VaultBooks {
                        vault: after.vault,
                        positions: books.positions.update(index, after.user_position),
                        custody: books.custody - amount,
                        ..books
                    },
                ),
                _ => None,
            }
        },
        Operation::Swap { side, ctx, amount, max_slippage_bps, observation, now } => {
            match oracle_swap_spec(ctx, amount, max_slippage_bps, observation, now) {
                Ok(swap) if swap_reads(books, side, ctx) => Some(
                    VaultBooks {
                        custody: match side {
                            SwapSide::Base => base_custody_after(ctx, swap),
                            SwapSide::Usdc => usdc_custody_after(ctx, swap),
                        },
                        ..books
                    },
                ),
                _ => None,
            }
        },
    }
}

/// The books after a sequence of operations that all succeed, in order; `None`
/// where one of them fails.
pub open spec fn books_after_all(books: VaultBooks, operations: Seq<Operation>) -> Option<
    VaultBooks,
>
    decreases operations.len(),
{
    if operations.len() == 0 {
        Some(books)
    } else {
        match books_after_all(books, operations.drop_last()) {
            Some(before_last) => books_after(before_last, operations.last()),
            None => None,
        }
    }
}

/// One successful operation leaves balanced books balanced.
pub proof fn lemma_operation_keeps_books_balanced(books: VaultBooks, operation: Operation)
    requires
        books.balanced(),
    ensures
        books_after(books, operation) matches Some(after) ==> after.balanced()
            && after.vault_key == books.vault_key,
{
    match operation {
        Operation::OpenPosition { position } => {
            if position.is_unbound() && position.deposited == 0 {
                lemma_unbound_position_claims_nothing(books.positions, books.vault_key, position);
                let after = books.positions.push(position);
                assert forall|j: int| 0 <= j < after.len() implies (#[trigger] after[j]).well_formed() by {
                    if j < books.positions.len() {
                        assert(books.positions[j].well_formed());
                    }
                }
            }
        },
        Operation::Deposit { index, owner, user_token_account, vault_token_account, amount } => {
            if 0 <= index < books.positions.len() && !owner.is_zero() {
                lemma_deposit_keeps_vault_backed(
                    deposit_on(books, index, owner, user_token_account, vault_token_account),
                    amount,
                    books.positions,
                    index,
                    books.custody,
                );
            }
        },
        Operation::Withdraw { index, owner, user_token_account, vault_token_account, amount } => {
            if 0 <= index < books.positions.len() {
                lemma_withdraw_keeps_vault_backed(
                    withdraw_on(books, index, owner, user_token_account, vault_token_account),
                    amount,
                    books.positions,
                    index,
                    books.custody,
                );
            }
        },
        Operation::Swap { side, ctx, amount, max_slippage_bps, observation, now } => {
            lemma_swap_keeps_vaults_backed(
                ctx,
                amount,
                max_slippage_bps,
                observation,
                now,
                books.positions,
            );
        },
    }
}

/// After any sequence of successful operations on balanced books, the vault
/// owes exactly the sum of what its positions claim, and keeps at least that in
/// custody.
pub proof fn lemma_books_stay_balanced(books: VaultBooks, operations: Seq<Operation>)
    requires
        books.balanced(),
    ensures
        books_after_all(books, operations) matches Some(after) ==> {
            &&& total_claims(after.positions, after.vault_key) == after.vault.total_deposits
            &&& after.vault.total_deposits <= after.custody
            &&& after.balanced()
        },
    decreases operations.len(),
{
    if operations.len() > 0 {
        lemma_books_stay_balanced(books, operations.drop_last());
        if let Some(before_last) = books_after_all(books, operations.drop_last()) {
            lemma_operation_keeps_books_balanced(before_last, operations.last());
        }
    }
}

} // verus!
