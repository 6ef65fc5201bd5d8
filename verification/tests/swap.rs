use teranium::{
    check_vault_liquidity, oracle_swap, swap_direction, swap_output, usdc_mint, Address, Mint,
    OracleObservation, OracleSwap, OracleSwapped, SwapDirection, TeraniumError, TokenAccount,
    VaultAccount,
};

fn address(tag: u8) -> Address {
    let mut bytes = [0u8; 32];
    bytes[0] = tag;
    bytes[31] = tag;
    Address::new(bytes)
}

fn base_mint() -> Address {
    address(1)
}

fn trader() -> Address {
    address(2)
}

fn base_vault_key() -> Address {
    address(3)
}

fn usdc_vault_key() -> Address {
    address(4)
}

/// A swap between a base asset of 9 decimals and the stable asset of 6. Each
/// vault keeps 50_000_000_000 and owes 10_000_000_000.
fn ctx(from_mint: Address, to_mint: Address) -> OracleSwap {
    OracleSwap {
        user: trader(),
        base_vault_key: base_vault_key(),
        base_vault: VaultAccount {
            mint: base_mint(),
            bump: 255,
            authority_bump: 254,
            total_deposits: 10_000_000_000,
        },
        base_vault_token_account: TokenAccount {
            mint: base_mint(),
            amount: 50_000_000_000,
        },
        base_mint: Mint {
            key: base_mint(),
            decimals: 9,
        },
        usdc_vault_key: usdc_vault_key(),
        usdc_vault: VaultAccount {
            mint: usdc_mint(),
            bump: 253,
            authority_bump: 252,
            total_deposits: 10_000_000_000,
        },
        usdc_vault_token_account: TokenAccount {
            mint: usdc_mint(),
            amount: 50_000_000_000,
        },
        usdc_mint: Mint {
            key: usdc_mint(),
            decimals: 6,
        },
        user_from_token_account: TokenAccount {
            mint: from_mint,
            amount: 1_000_000_000_000,
        },
        user_to_token_account: TokenAccount {
            mint: to_mint,
            amount: 0,
        },
    }
}

fn selling_base() -> OracleSwap {
    ctx(base_mint(), usdc_mint())
}

fn buying_base() -> OracleSwap {
    ctx(usdc_mint(), base_mint())
}

/// 2.000000 +- 0.001000, published at 1_000.
fn two_dollars() -> OracleObservation {
    OracleObservation {
        price: 2_000_000,
        conf: 1_000,
        expo: -6,
        publish_time: 1_000,
    }
}

#[test]
fn direction_codes() {
    assert_eq!(SwapDirection::BaseToUsdc.code(), 0);
    assert_eq!(SwapDirection::UsdcToBase.code(), 1);
}

#[test]
fn direction_follows_the_traders_accounts() {
    assert_eq!(
        swap_direction(&selling_base(), 1, 0),
        Ok(SwapDirection::BaseToUsdc)
    );
    assert_eq!(
        swap_direction(&buying_base(), 1, 10_000),
        Ok(SwapDirection::UsdcToBase)
    );
}

#[test]
fn swap_of_zero_is_invalid() {
    assert_eq!(
        swap_direction(&selling_base(), 0, 50),
        Err(TeraniumError::InvalidAmount)
    );
    assert_eq!(
        oracle_swap(&selling_base(), 0, 50, Some(two_dollars()), 1_000),
        Err(TeraniumError::InvalidAmount)
    );
}

#[test]
fn tolerance_above_the_whole_is_invalid() {
    assert_eq!(
        swap_direction(&selling_base(), 1, 10_001),
        Err(TeraniumError::InvalidSlippageBps)
    );
    assert_eq!(
        oracle_swap(&selling_base(), 1, u16::MAX, Some(two_dollars()), 1_000),
        Err(TeraniumError::InvalidSlippageBps)
    );
}

#[test]
fn amount_is_tested_before_the_tolerance() {
    assert_eq!(
        swap_direction(&selling_base(), 0, 10_001),
        Err(TeraniumError::InvalidAmount)
    );
}

#[test]
fn stable_asset_must_be_the_reference_asset() {
    let mut c = selling_base();
    c.usdc_mint.key = address(9);
    c.usdc_vault.mint = address(9);
    c.usdc_vault_token_account.mint = address(9);
    c.user_to_token_account.mint = address(9);
    assert_eq!(
        swap_direction(&c, 1, 50),
        Err(TeraniumError::InvalidUsdcMint)
    );
}

#[test]
fn stable_vault_must_keep_the_stable_asset() {
    let mut c = selling_base();
    c.usdc_vault.mint = address(9);
    assert_eq!(swap_direction(&c, 1, 50), Err(TeraniumError::MintMismatch));
}

#[test]
fn base_vault_must_keep_the_base_asset() {
    let mut c = selling_base();
    c.base_vault.mint = address(9);
    assert_eq!(swap_direction(&c, 1, 50), Err(TeraniumError::MintMismatch));
}

#[test]
fn base_asset_must_differ_from_the_stable_asset() {
    let mut c = selling_base();
    c.base_mint.key = usdc_mint();
    c.base_vault.mint = usdc_mint();
    c.base_vault_token_account.mint = usdc_mint();
    c.user_from_token_account.mint = usdc_mint();
    assert_eq!(
        swap_direction(&c, 1, 50),
        Err(TeraniumError::InvalidSwapPair)
    );
}

#[test]
fn base_custody_must_hold_the_base_asset() {
    let mut c = selling_base();
    c.base_vault_token_account.mint = address(9);
    assert_eq!(swap_direction(&c, 1, 50), Err(TeraniumError::MintMismatch));
}

#[test]
fn stable_custody_must_hold_the_stable_asset() {
    let mut c = selling_base();
    c.usdc_vault_token_account.mint = address(9);
    assert_eq!(swap_direction(&c, 1, 50), Err(TeraniumError::MintMismatch));
}

#[test]
fn traders_accounts_must_be_one_of_each() {
    assert_eq!(
        swap_direction(&ctx(base_mint(), base_mint()), 1, 50),
        Err(TeraniumError::InvalidSwapPair)
    );
    assert_eq!(
        swap_direction(&ctx(usdc_mint(), usdc_mint()), 1, 50),
        Err(TeraniumError::InvalidSwapPair)
    );
    assert_eq!(
        swap_direction(&ctx(base_mint(), address(9)), 1, 50),
        Err(TeraniumError::InvalidSwapPair)
    );
    assert_eq!(
        swap_direction(&ctx(address(9), base_mint()), 1, 50),
        Err(TeraniumError::InvalidSwapPair)
    );
}

#[test]
fn output_of_each_direction() {
    assert_eq!(
        swap_output(SwapDirection::BaseToUsdc, 1_000_000_000, 2_000_000, -6, 9, 6),
        Ok(2_000_000)
    );
    assert_eq!(
        swap_output(SwapDirection::UsdcToBase, 2_000_000, 2_000_000, -6, 9, 6),
        Ok(1_000_000_000)
    );
}

#[test]
fn output_of_zero_is_rejected() {
    // 499 base units at 2.0 are 0.998 of the smallest stable unit.
    assert_eq!(
        swap_output(SwapDirection::BaseToUsdc, 499, 2_000_000, -6, 9, 6),
        Err(TeraniumError::SwapZeroOut)
    );
    assert_eq!(
        swap_output(SwapDirection::BaseToUsdc, 500, 2_000_000, -6, 9, 6),
        Ok(1)
    );
    assert_eq!(
        swap_output(SwapDirection::UsdcToBase, 1, 0, -6, 9, 6),
        Err(TeraniumError::SwapZeroOut)
    );
}

#[test]
fn output_overflow_is_reported() {
    assert_eq!(
        swap_output(SwapDirection::BaseToUsdc, u64::MAX, u128::MAX, 0, 0, 0),
        Err(TeraniumError::MathOverflow)
    );
    assert_eq!(
        swap_output(SwapDirection::UsdcToBase, 1, 1, 0, 39, 0),
        Err(TeraniumError::MathOverflow)
    );
}

#[test]
fn vault_that_keeps_only_deposits_cannot_pay() {
    assert_eq!(
        check_vault_liquidity(1_000_000, 1_000_000, 1),
        Err(TeraniumError::InsufficientVaultLiquidity)
    );
}

#[test]
fn vault_pays_out_of_its_surplus() {
    assert_eq!(check_vault_liquidity(1_000_001, 1_000_000, 1), Ok(1));
    assert_eq!(
        check_vault_liquidity(1_000_001, 1_000_000, 2),
        Err(TeraniumError::InsufficientVaultLiquidity)
    );
    assert_eq!(check_vault_liquidity(u64::MAX, 0, u64::MAX as u128), Ok(u64::MAX));
}

#[test]
fn vault_cannot_pay_more_than_it_keeps() {
    assert_eq!(
        check_vault_liquidity(10, 0, 11),
        Err(TeraniumError::InsufficientVaultLiquidity)
    );
    assert_eq!(
        check_vault_liquidity(u64::MAX, 0, u64::MAX as u128 + 1),
        Err(TeraniumError::InsufficientVaultLiquidity)
    );
    // An output above 64 bits is never cut down to its low bits.
    assert_eq!(
        check_vault_liquidity(u64::MAX, 0, (1u128 << 64) + 5),
        Err(TeraniumError::InsufficientVaultLiquidity)
    );
}

#[test]
fn selling_one_base_unit() {
    let c = selling_base();
    assert_eq!(
        oracle_swap(&c, 1_000_000_000, 50, Some(two_dollars()), 1_030),
        Ok(OracleSwapped {
            user: trader(),
            base_vault: base_vault_key(),
            usdc_vault: usdc_vault_key(),
            from_mint: base_mint(),
            to_mint: usdc_mint(),
            amount_in: 1_000_000_000,
            amount_out: 2_000_000,
            oracle_price: 2_000_000,
            oracle_conf: 1_000,
            oracle_expo: -6,
            direction: 0,
        })
    );
}

#[test]
fn buying_base_for_three_dollars() {
    let c = buying_base();
    assert_eq!(
        oracle_swap(&c, 3_000_000, 50, Some(two_dollars()), 1_060),
        Ok(OracleSwapped {
            user: trader(),
            base_vault: base_vault_key(),
            usdc_vault: usdc_vault_key(),
            from_mint: usdc_mint(),
            to_mint: base_mint(),
            amount_in: 3_000_000,
            amount_out: 1_500_000_000,
            oracle_price: 2_000_000,
            oracle_conf: 1_000,
            oracle_expo: -6,
            direction: 1,
        })
    );
}

#[test]
fn swap_without_a_price() {
    assert_eq!(
        oracle_swap(&selling_base(), 1_000_000_000, 50, None, 1_000),
        Err(TeraniumError::OracleNoPrice)
    );
}

#[test]
fn request_is_tested_before_the_price() {
    assert_eq!(
        oracle_swap(&ctx(base_mint(), base_mint()), 1_000_000_000, 50, None, 1_000),
        Err(TeraniumError::InvalidSwapPair)
    );
}

#[test]
fn swap_at_a_stale_price() {
    assert_eq!(
        oracle_swap(&selling_base(), 1_000_000_000, 50, Some(two_dollars()), 1_061),
        Err(TeraniumError::OracleStale)
    );
}

#[test]
fn swap_at_an_invalid_price() {
    let mut reading = two_dollars();
    reading.price = 0;
    assert_eq!(
        oracle_swap(&selling_base(), 1_000_000_000, 50, Some(reading), 1_000),
        Err(TeraniumError::OracleInvalidPrice)
    );
    reading.price = -2_000_000;
    assert_eq!(
        oracle_swap(&buying_base(), 1_000_000_000, 50, Some(reading), 1_000),
        Err(TeraniumError::OracleInvalidPrice)
    );
}

#[test]
fn swap_at_an_uncertain_price() {
    // 0.001 of 2.0 is 5 basis points.
    assert!(oracle_swap(&selling_base(), 1_000_000_000, 5, Some(two_dollars()), 1_000).is_ok());
    assert_eq!(
        oracle_swap(&selling_base(), 1_000_000_000, 4, Some(two_dollars()), 1_000),
        Err(TeraniumError::OracleSlippageExceeded)
    );
}

#[test]
fn swap_that_would_pay_nothing() {
    assert_eq!(
        oracle_swap(&selling_base(), 499, 50, Some(two_dollars()), 1_000),
        Err(TeraniumError::SwapZeroOut)
    );
}

#[test]
fn swap_whose_output_overflows() {
    let mut c = selling_base();
    c.usdc_mint.decimals = 39;
    assert_eq!(
        oracle_swap(&c, 1_000_000_000, 50, Some(two_dollars()), 1_000),
        Err(TeraniumError::MathOverflow)
    );
}

#[test]
fn swap_against_a_vault_without_surplus() {
    // The stable vault keeps 1_000_000 and owes 1_000_000; paying 1 would
    // leave 999_999.
    let mut c = selling_base();
    c.usdc_vault_token_account.amount = 1_000_000;
    c.usdc_vault.total_deposits = 1_000_000;
    assert_eq!(
        oracle_swap(&c, 500, 50, Some(two_dollars()), 1_000),
        Err(TeraniumError::InsufficientVaultLiquidity)
    );
}

#[test]
fn swap_pays_exactly_the_surplus() {
    let mut c = selling_base();
    c.usdc_vault_token_account.amount = 12_000_000;
    c.usdc_vault.total_deposits = 10_000_000;
    let swapped = oracle_swap(&c, 1_000_000_000, 50, Some(two_dollars()), 1_000).unwrap();
    assert_eq!(swapped.amount_out, 2_000_000);
    assert_eq!(
        oracle_swap(&c, 1_000_000_500, 50, Some(two_dollars()), 1_000),
        Err(TeraniumError::InsufficientVaultLiquidity)
    );
}

#[test]
fn only_the_paying_vault_is_tested() {
    // The base vault keeps less than it owes; it only receives here.
    let mut c = selling_base();
    c.base_vault_token_account.amount = 0;
    assert!(oracle_swap(&c, 1_000_000_000, 50, Some(two_dollars()), 1_000).is_ok());
    // Paying from it is refused.
    let mut back = buying_base();
    back.base_vault_token_account.amount = 0;
    assert_eq!(
        oracle_swap(&back, 2_000_000, 50, Some(two_dollars()), 1_000),
        Err(TeraniumError::InsufficientVaultLiquidity)
    );
}

#[test]
fn swap_output_beyond_a_balance() {
    let mut c = selling_base();
    c.base_mint.decimals = 0;
    c.usdc_mint.decimals = 6;
    let reading = OracleObservation {
        price: i64::MAX,
        conf: 0,
        expo: 0,
        publish_time: 1_000,
    };
    // u64::MAX * i64::MAX * 10^6 fits 128 bits and no balance.
    assert_eq!(
        oracle_swap(&c, 30_000_000_000_000, 0, Some(reading), 1_000),
        Err(TeraniumError::InsufficientVaultLiquidity)
    );
}

#[test]
fn swaps_leave_the_vaults_backed() {
    let mut c = selling_base();
    let mut base_custody = c.base_vault_token_account.amount;
    let mut usdc_custody: u64 = 10_040_000_000;
    let amounts: [u64; 4] = [1_000_000_000, 5_000_000_000, 12_345_678_901, 3_000_000_000];
    for amount in amounts {
        c.base_vault_token_account.amount = base_custody;
        c.usdc_vault_token_account.amount = usdc_custody;
        match oracle_swap(&c, amount, 50, Some(two_dollars()), 1_000) {
            Ok(swapped) => {
                base_custody += swapped.amount_in;
                usdc_custody -= swapped.amount_out;
            }
            Err(e) => assert_eq!(e, TeraniumError::InsufficientVaultLiquidity),
        }
        assert!(usdc_custody >= c.usdc_vault.total_deposits);
        assert!(base_custody >= c.base_vault.total_deposits);
    }
    // 1 + 5 + 12.345678901 base units were sold; the last 3 would have drawn
    // on deposits.
    assert_eq!(base_custody, 68_345_678_901);
    assert_eq!(usdc_custody, 10_040_000_000 - 36_691_357);
}

#[test]
fn pricing_alone_takes_the_direction_as_given() {
    let c = selling_base();
    let priced = teranium::price_swap(
        &c,
        SwapDirection::UsdcToBase,
        4_000_000,
        50,
        Some(two_dollars()),
        1_000,
    )
    .unwrap();
    assert_eq!(priced.amount_in, 4_000_000);
    assert_eq!(priced.amount_out, 2_000_000_000);
    assert_eq!(priced.direction, 1);
    assert_eq!(
        teranium::price_swap(&c, SwapDirection::BaseToUsdc, 1, 50, None, 1_000),
        Err(TeraniumError::OracleNoPrice)
    );
}
