use amm_core::curve::{swap_amount_out, withdraw_share, BPS_DENOMINATOR};
use amm_core::{burn, transfer, AmmError, Config, Mint, TokenAccount};

#[test]
fn basis_points_are_parts_of_ten_thousand() {
    assert_eq!(BPS_DENOMINATOR, 10_000);
}

#[test]
fn swap_amount_out_follows_the_constant_product() {
    assert_eq!(swap_amount_out(1000, 1000, 100, 100), Ok(91));
    assert_eq!(swap_amount_out(1000, 1000, 100, 0), Ok(91));
    assert_eq!(swap_amount_out(1000, 1000, 1000, 0), Ok(500));
    assert_eq!(swap_amount_out(4000, 6000, 2000, 250), Ok(1967));
    assert_eq!(swap_amount_out(5, 7, 0, 30), Ok(0));
    assert_eq!(swap_amount_out(1, u64::MAX, u64::MAX - 1, 0), Ok(u64::MAX - 1));
}

#[test]
fn swap_amount_out_takes_the_fee_from_the_input() {
    // fee = 10_000 * 5000 / 10_000 = 5000, 10_000 * 10_000 / 15_000 = 6666
    assert_eq!(swap_amount_out(10_000, 10_000, 10_000, 5000), Ok(3334));
    // fee = 19_999 * 1 / 10_000 = 1, 10_000 * 10_000 / 29_998 = 3333
    assert_eq!(swap_amount_out(10_000, 10_000, 19_999, 1), Ok(6667));
    // the whole input is fee
    assert_eq!(swap_amount_out(10_000, 10_000, 19_999, 10_000), Ok(0));
}

#[test]
fn swap_amount_out_names_the_step_that_fails() {
    assert_eq!(swap_amount_out(1000, 1000, u64::MAX, u16::MAX), Err(AmmError::Overflow));
    assert_eq!(swap_amount_out(1000, 1000, 100, 10_001), Ok(0));
    assert_eq!(swap_amount_out(1000, 1000, 10_000, 10_001), Err(AmmError::Underflow));
    assert_eq!(swap_amount_out(u64::MAX, 1000, 1, 0), Err(AmmError::Overflow));
    assert_eq!(swap_amount_out(u64::MAX, 1000, 1, 10_000), Ok(0));
    assert_eq!(swap_amount_out(0, 1000, 1, 10_000), Err(AmmError::Underflow));
    assert_eq!(swap_amount_out(0, 1000, 0, 0), Err(AmmError::Underflow));
}

#[test]
fn withdraw_share_is_the_proportion_rounded_down() {
    assert_eq!(withdraw_share(50, 1000, 1000), Ok(50));
    assert_eq!(withdraw_share(50, 2000, 1000), Ok(100));
    assert_eq!(withdraw_share(1, 10, 3), Ok(3));
    assert_eq!(withdraw_share(2, 10, 3), Ok(6));
    assert_eq!(withdraw_share(3, 10, 3), Ok(10));
    assert_eq!(withdraw_share(0, 10, 3), Ok(0));
    assert_eq!(withdraw_share(u64::MAX, u64::MAX, u64::MAX), Ok(u64::MAX));
    assert_eq!(withdraw_share(u64::MAX - 1, u64::MAX, u64::MAX), Ok(u64::MAX - 1));
}

#[test]
fn withdraw_share_names_the_step_that_fails() {
    assert_eq!(withdraw_share(50, 1000, 0), Err(AmmError::Underflow));
    assert_eq!(withdraw_share(0, 0, 0), Err(AmmError::Underflow));
    assert_eq!(withdraw_share(2, u64::MAX, 1), Err(AmmError::Overflow));
    assert_eq!(withdraw_share(u64::MAX, u64::MAX, u64::MAX - 1), Err(AmmError::Overflow));
}

#[test]
fn config_new_accepts_rates_up_to_one() {
    assert_eq!(
        Config::new(9, 30, 255, 254),
        Some(Config { seed: 9, fee: 30, locked: false, config_bump: 255, lp_bump: 254 })
    );
    assert_eq!(
        Config::new(0, 10_000, 0, 0),
        Some(Config { seed: 0, fee: 10_000, locked: false, config_bump: 0, lp_bump: 0 })
    );
    assert_eq!(Config::new(0, 10_001, 0, 0), None);
    assert_eq!(Config::new(0, u16::MAX, 0, 0), None);
}

#[test]
fn provisioning_creates_an_empty_account_once() {
    let created = TokenAccount::init_if_needed(None);
    assert_eq!(created, TokenAccount { amount: 0 });
    assert_eq!(TokenAccount::init_if_needed(Some(created)), created);
}

#[test]
fn provisioning_leaves_an_existing_balance_alone() {
    let existing = TokenAccount { amount: 42 };
    let once = TokenAccount::init_if_needed(Some(existing));
    let twice = TokenAccount::init_if_needed(Some(once));
    assert_eq!(once, existing);
    assert_eq!(twice, existing);
}

#[test]
fn transfer_moves_the_amount() {
    let mut from = TokenAccount { amount: 10 };
    let mut to = TokenAccount { amount: 5 };
    assert_eq!(transfer(&mut from, &mut to, 10), Ok(()));
    assert_eq!((from.amount, to.amount), (0, 15));
    assert_eq!(transfer(&mut from, &mut to, 0), Ok(()));
    assert_eq!((from.amount, to.amount), (0, 15));
}

#[test]
fn transfer_refusals_change_nothing() {
    let mut from = TokenAccount { amount: 10 };
    let mut to = TokenAccount { amount: u64::MAX - 9 };
    assert_eq!(transfer(&mut from, &mut to, 11), Err(AmmError::InsufficientBalance));
    assert_eq!(transfer(&mut from, &mut to, 10), Err(AmmError::Overflow));
    assert_eq!((from.amount, to.amount), (10, u64::MAX - 9));
    assert_eq!(transfer(&mut from, &mut to, 9), Ok(()));
    assert_eq!((from.amount, to.amount), (1, u64::MAX));
}

#[test]
fn burn_lowers_holding_and_supply() {
    let mut mint = Mint { supply: 100 };
    let mut from = TokenAccount { amount: 30 };
    assert_eq!(burn(&mut mint, &mut from, 30), Ok(()));
    assert_eq!((mint.supply, from.amount), (70, 0));
}

#[test]
fn burn_refusals_change_nothing() {
    let mut mint = Mint { supply: 20 };
    let mut from = TokenAccount { amount: 30 };
    assert_eq!(burn(&mut mint, &mut from, 31), Err(AmmError::InsufficientBalance));
    assert_eq!(burn(&mut mint, &mut from, 21), Err(AmmError::Underflow));
    assert_eq!((mint.supply, from.amount), (20, 30));
}
