use std::str::FromStr;

use anchor_lang::prelude::Pubkey;
use teranium::{usdc_mint, Address};

#[test]
fn stable_asset_is_the_usdc_mint() {
    let key = Pubkey::from_str("EPjFWdd5AufqSSqeM2qN1xzybapC8G4wEGGkZwyTDt1v").unwrap();
    assert_eq!(usdc_mint().to_bytes(), key.to_bytes());
}

#[test]
fn zero_address_is_the_default_key() {
    assert_eq!(Address::default().to_bytes(), Pubkey::default().to_bytes());
    assert!(Address::new(Pubkey::default().to_bytes()).is_zero());
}

#[test]
fn addresses_compare_as_keys_do() {
    let a = Pubkey::new_from_array([3u8; 32]);
    let mut other = [3u8; 32];
    other[17] = 4;
    let b = Pubkey::new_from_array(other);
    assert_eq!(Address::new(a.to_bytes()) == Address::new(a.to_bytes()), a == a);
    assert_eq!(Address::new(a.to_bytes()) == Address::new(b.to_bytes()), a == b);
}
