use amm_core::{AmmError, Config, Mint, TokenAccount, Withdraw};

fn config(locked: bool) -> Config {
    Config { seed: 7, fee: 30, locked, config_bump: 254, lp_bump: 253 }
}

fn pool(
    vault_x: u64,
    vault_y: u64,
    supply: u64,
    user_lp: u64,
    user_x: u64,
    user_y: u64,
) -> Withdraw {
    Withdraw {
        config: config(false),
        vault_x: TokenAccount { amount: vault_x },
        vault_y: TokenAccount { amount: vault_y },
        mint_lp: Mint { supply },
        user_lp: TokenAccount { amount: user_lp },
        user_x: TokenAccount { amount: user_x },
        user_y: TokenAccount { amount: user_y },
    }
}

#[test]
fn withdraw_a_twentieth() {
    let mut withdraw = pool(1000, 2000, 1000, 60, 1, 2);
    assert_eq!(withdraw.withdraw(50, 0, 0), Ok((50, 100)));
    assert_eq!(withdraw, pool(950, 1900, 950, 10, 51, 102));
}

#[test]
fn withdraw_accepts_floors_equal_to_the_shares() {
    let mut withdraw = pool(1000, 2000, 1000, 50, 0, 0);
    assert_eq!(withdraw.withdraw(50, 50, 100), Ok((50, 100)));
}

#[test]
fn withdraw_rounds_down_and_leaves_the_dust() {
    // 1 * 10 / 3 = 3, 1 * 2 / 3 = 0
    let mut withdraw = pool(10, 2, 3, 1, 0, 0);
    assert_eq!(withdraw.withdraw(1, 0, 0), Ok((3, 0)));
    assert_eq!(withdraw, pool(7, 2, 2, 0, 3, 0));
}

#[test]
fn withdraw_shares_are_in_proportion_up_to_rounding() {
    let before = pool(1_000_003, 777_777, 12_345, 1_000, 0, 0);
    let mut withdraw = before;
    let (paid_x, paid_y) = withdraw.withdraw(999, 0, 0).unwrap();
    assert_eq!(paid_x, 80_923);
    assert_eq!(paid_y, 62_940);
    assert!(paid_x as u128 * 12_345 <= 999 * 1_000_003);
    assert!((paid_x as u128 + 1) * 12_345 > 999 * 1_000_003);
    assert!(paid_y as u128 * 12_345 <= 999 * 777_777);
    assert!((paid_y as u128 + 1) * 12_345 > 999 * 777_777);
    let cross = paid_x as i128 * 777_777 - paid_y as i128 * 1_000_003;
    assert!(-777_777 <= cross && cross <= 1_000_003);
}

#[test]
fn withdraw_of_the_whole_supply_empties_the_vaults() {
    let mut withdraw = pool(123, 456, 789, 789, 0, 0);
    assert_eq!(withdraw.withdraw(789, 123, 456), Ok((123, 456)));
    assert_eq!(withdraw, pool(0, 0, 0, 0, 123, 456));
}

#[test]
fn withdraw_forms_the_product_in_double_width() {
    let big: u64 = 1 << 40;
    let mut withdraw = pool(big, 3 * big, 2 * big, big, 0, 0);
    assert_eq!(withdraw.withdraw(big, 0, 0), Ok((big / 2, 3 * (big / 2))));
    assert_eq!(withdraw, pool(big / 2, 3 * big - 3 * (big / 2), big, 0, big / 2, 3 * (big / 2)));
}

#[test]
fn withdraw_from_a_locked_pool_is_allowed() {
    let mut withdraw = Withdraw { config: config(true), ..pool(1000, 2000, 1000, 60, 0, 0) };
    assert_eq!(withdraw.withdraw(50, 0, 0), Ok((50, 100)));
    assert_eq!(withdraw.config, config(true));
}

#[test]
fn withdraw_zero_is_refused() {
    let before = pool(1000, 2000, 1000, 60, 0, 0);
    let mut withdraw = before;
    assert_eq!(withdraw.withdraw(0, 0, 0), Err(AmmError::ZeroBalance));
    assert_eq!(withdraw, before);
}

#[test]
fn withdraw_more_than_held_is_refused() {
    let before = pool(1000, 2000, 1000, 60, 0, 0);
    let mut withdraw = before;
    assert_eq!(withdraw.withdraw(61, 0, 0), Err(AmmError::InsufficientBalance));
    assert_eq!(withdraw, before);
    assert_eq!(withdraw.withdraw(60, 0, 0), Ok((60, 120)));
}

#[test]
fn withdraw_with_no_supply_fails_cleanly() {
    let before = pool(1000, 2000, 0, 60, 0, 0);
    let mut withdraw = before;
    assert_eq!(withdraw.withdraw(50, 0, 0), Err(AmmError::Underflow));
    assert_eq!(withdraw, before);
}

#[test]
fn withdraw_below_either_floor_is_refused() {
    let before = pool(1000, 2000, 1000, 60, 0, 0);
    let mut withdraw = before;
    assert_eq!(withdraw.withdraw(50, 51, 0), Err(AmmError::SlippageExceeded));
    assert_eq!(withdraw.withdraw(50, 0, 101), Err(AmmError::SlippageExceeded));
    assert_eq!(withdraw.withdraw(50, 51, 101), Err(AmmError::SlippageExceeded));
    assert_eq!(withdraw, before);
}

#[test]
fn withdraw_share_that_does_not_fit_overflows() {
    let before = pool(u64::MAX, 0, 1, 2, 0, 0);
    let mut withdraw = before;
    assert_eq!(withdraw.withdraw(2, 0, 0), Err(AmmError::Overflow));
    assert_eq!(withdraw, before);
}

#[test]
fn withdraw_share_above_the_vault_is_refused() {
    let before = pool(10, 0, 1, 2, 0, 0);
    let mut withdraw = before;
    assert_eq!(withdraw.withdraw(2, 0, 0), Err(AmmError::InsufficientBalance));
    assert_eq!(withdraw, before);
}

#[test]
fn withdraw_caller_account_that_cannot_take_the_share_overflows() {
    let before = pool(1000, 2000, 1000, 60, 0, u64::MAX - 99);
    let mut withdraw = before;
    assert_eq!(withdraw.withdraw(50, 0, 0), Err(AmmError::Overflow));
    assert_eq!(withdraw, before);
}

#[test]
fn withdraw_burn_above_the_supply_underflows_and_undoes_the_payments() {
    let before = pool(0, 0, 1, 2, 0, 0);
    let mut withdraw = before;
    assert_eq!(withdraw.withdraw(2, 0, 0), Err(AmmError::Underflow));
    assert_eq!(withdraw, before);
}

#[test]
fn withdraw_new_provisions_the_accounts_of_x_and_y() {
    let vault = TokenAccount { amount: 9 };
    let lp = TokenAccount { amount: 4 };
    let fresh = Withdraw::new(config(false), vault, vault, Mint { supply: 5 }, lp, None, None);
    assert_eq!(fresh, pool(9, 9, 5, 4, 0, 0));
    let kept = Withdraw::new(
        config(false),
        vault,
        vault,
        Mint { supply: 5 },
        lp,
        Some(TokenAccount { amount: 11 }),
        None,
    );
    assert_eq!(kept, pool(9, 9, 5, 4, 11, 0));
}

#[test]
fn withdraw_tokens_pays_from_the_named_vault() {
    let mut withdraw = pool(1000, 2000, 1000, 60, 1, 2);
    assert_eq!(withdraw.withdraw_tokens(true, 400), Ok(()));
    assert_eq!(withdraw, pool(600, 2000, 1000, 60, 401, 2));
    assert_eq!(withdraw.withdraw_tokens(false, 2000), Ok(()));
    assert_eq!(withdraw, pool(600, 0, 1000, 60, 401, 2002));
}

#[test]
fn withdraw_tokens_refusals_change_nothing() {
    let before = pool(1000, 2000, 1000, 60, u64::MAX, 2);
    let mut withdraw = before;
    assert_eq!(withdraw.withdraw_tokens(true, 1001), Err(AmmError::InsufficientBalance));
    assert_eq!(withdraw.withdraw_tokens(true, 1), Err(AmmError::Overflow));
    assert_eq!(withdraw.withdraw_tokens(false, 2001), Err(AmmError::InsufficientBalance));
    assert_eq!(withdraw, before);
}

#[test]
fn burn_lp_tokens_lowers_holding_and_supply() {
    let mut withdraw = pool(1000, 2000, 1000, 60, 1, 2);
    assert_eq!(withdraw.burn_lp_tokens(60), Ok(()));
    assert_eq!(withdraw, pool(1000, 2000, 940, 0, 1, 2));
}

#[test]
fn burn_lp_tokens_refusals_change_nothing() {
    let before = pool(1000, 2000, 50, 60, 1, 2);
    let mut withdraw = before;
    assert_eq!(withdraw.burn_lp_tokens(61), Err(AmmError::InsufficientBalance));
    assert_eq!(withdraw.burn_lp_tokens(51), Err(AmmError::Underflow));
    assert_eq!(withdraw, before);
}
