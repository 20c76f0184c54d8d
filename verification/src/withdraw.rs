//! Redeeming receipt tokens for a share of both vaults.

use vstd::prelude::*;
use crate::curve::{lemma_pro_rata_exact, pro_rata_share, share_error, withdraw_share};
use crate::errors::AmmError;
use crate::state::Config;
use crate::token::{burn, burn_error, transfer, transfer_error, Mint, TokenAccount};

verus! {

/// What a withdrawal reads and writes: the pool's record, its two vaults,
/// the receipt token's mint, and the caller's accounts of the receipt token
/// and of the two assets.
#[derive(Clone, Copy, Debug, PartialEq, Eq, Structural)]
pub struct Withdraw {
    pub config: Config,
    pub vault_x: TokenAccount,
    pub vault_y: TokenAccount,
    pub mint_lp: Mint,
    pub user_lp: TokenAccount,
    pub user_x: TokenAccount,
    pub user_y: TokenAccount,
}

impl Withdraw {
    /// The vault of X where `is_x`, else the vault of Y.
    pub open spec fn vault(self, is_x: bool) -> TokenAccount {
        if is_x {
            self.vault_x
        } else {
            self.vault_y
        }
    }

    /// The caller's account of the same asset.
    pub open spec fn user(self, is_x: bool) -> TokenAccount {
        if is_x {
            self.user_x
        } else {
            self.user_y
        }
    }

    /// The share of the vault of X, or of Y, that `amount` of the receipt
    /// token redeems at the present reserves and supply.
    pub open spec fn share(self, is_x: bool, amount: u64) -> int {
        pro_rata_share(amount, self.vault(is_x).amount, self.mint_lp.supply)
    }

    /// `post` is `self` after `paid_x` and `paid_y` went from the vaults to
    /// the caller and `burned` of the caller's receipt tokens were destroyed.
    /// Nothing else differs.
    pub open spec fn paid(self, post: Withdraw, paid_x: int, paid_y: int, burned: int) -> bool {
        &&& post.config == self.config
        &&& post.vault_x.amount == self.vault_x.amount - paid_x
        &&& post.user_x.amount == self.user_x.amount + paid_x
        &&& post.vault_y.amount == self.vault_y.amount - paid_y
        &&& post.user_y.amount == self.user_y.amount + paid_y
        &&& post.user_lp.amount == self.user_lp.amount - burned
        &&& post.mint_lp.supply == self.mint_lp.supply - burned
    }

    /// Why a withdrawal is refused, if it is. The tests are made in this
    /// order and the first that fails decides: the amount, the caller's
    /// holding, the share of X and that of Y, the caller's floors, and then
    /// the payment of X, that of Y, and the burn.
    pub open spec fn withdraw_error(self, amount: u64, min_x: u64, min_y: u64) -> Option<AmmError> {
        let priced_x = share_error(amount, self.vault_x.amount, self.mint_lp.supply);
        let priced_y = share_error(amount, self.vault_y.amount, self.mint_lp.supply);
        let share_x = self.share(true, amount);
        let share_y = self.share(false, amount);
        let paid_x = transfer_error(self.vault_x, self.user_x, share_x as u64);
        let paid_y = transfer_error(self.vault_y, self.user_y, share_y as u64);
        if amount == 0 {
            Some(AmmError::ZeroBalance)
        } else if amount > self.user_lp.amount {
            Some(AmmError::InsufficientBalance)
        } else if priced_x is Some {
            priced_x
        } else if priced_y is Some {
            priced_y
        } else if share_x < min_x || share_y < min_y {
            Some(AmmError::SlippageExceeded)
        } else if paid_x is Some {
            paid_x
        } else if paid_y is Some {
            paid_y
        } else {
            burn_error(self.mint_lp, self.user_lp, amount)
        }
    }

    /// Gathers what a withdrawal works on. The caller's account of the
    /// receipt token must exist; those of X and Y are provisioned where they
    /// do not.
    pub fn new(
        config: Config,
        vault_x: TokenAccount,
        vault_y: TokenAccount,
        mint_lp: Mint,
        user_lp: TokenAccount,
        user_x: Option<TokenAccount>,
        user_y: Option<TokenAccount>,
    ) -> (withdraw: Withdraw)
        ensures
            withdraw == (Withdraw {
                config,
                vault_x,
                vault_y,
                mint_lp,
                user_lp,
                user_x: TokenAccount::provisioned(user_x),
                user_y: TokenAccount::provisioned(user_y),
            }),
    {
        Withdraw {
            config,
            vault_x,
            vault_y,
            mint_lp,
            user_lp,
            user_x: TokenAccount::init_if_needed(user_x),
            user_y: TokenAccount::init_if_needed(user_y),
        }
    }

    /// Redeems `amount` of the receipt token for its share of both vaults,
    /// and returns what was paid of X and of Y. A withdrawal that would pay
    /// less than `min_x` of X or less than `min_y` of Y is refused. The
    /// shares are fixed on the supply before the burn; X is paid first, then
    /// Y, and the receipt tokens are burned last. A refused withdrawal
    /// changes nothing.
    pub fn withdraw(&mut self, amount: u64, min_x: u64, min_y: u64) -> (r: Result<
        (u64, u64),
        AmmError,
    >)
        ensures
            (match old(self).withdraw_error(amount, min_x, min_y) {
                Some(e) => r == Err::<(u64, u64), AmmError>(e) && *final(self) == *old(self),
                None => {
                    &&& r matches Ok((paid_x, paid_y))
                    &&& paid_x == old(self).share(true, amount)
                    &&& paid_y == old(self).share(false, amount)
                    &&& paid_x >= min_x
                    &&& paid_y >= min_y
                    &&& old(self).paid(*final(self), paid_x as int, paid_y as int, amount as int)
                },
            }),
            r is Err ==> *final(self) == *old(self),
    {
        if amount == 0 {
            return Err(AmmError::ZeroBalance);
        }
        if amount > self.user_lp.amount {
            return Err(AmmError::InsufficientBalance);
        }
        let supply: u64 = self.mint_lp.supply;
        let share_x: u64 = match withdraw_share(amount, self.vault_x.amount, supply) {
            Ok(share) => share,
            Err(e) => {
                return Err(e);
            },
        };
        let share_y: u64 = match withdraw_share(amount, self.vault_y.amount, supply) {
            Ok(share) => share,
            Err(e) => {
                return Err(e);
            },
        };
        if share_x < min_x || share_y < min_y {
            return Err(AmmError::SlippageExceeded);
        }
        let mut next: Withdraw = *self;
        if let Err(e) = next.withdraw_tokens(true, share_x) {
            return Err(e);
        }
        if let Err(e) = next.withdraw_tokens(false, share_y) {
            return Err(e);
        }
        if let Err(e) = next.burn_lp_tokens(amount) {
            return Err(e);
        }
        *self = next;
        Ok((share_x, share_y))
    }

    /// Moves `amount` from the vault of X (where `is_x`, else of Y) to the
    /// caller.
    pub fn withdraw_tokens(&mut self, is_x: bool, amount: u64) -> (r: Result<(), AmmError>)
        ensures
            (match transfer_error(old(self).vault(is_x), old(self).user(is_x), amount) {
                Some(e) => r == Err::<(), AmmError>(e) && *final(self) == *old(self),
                None => r.is_ok() && old(self).paid(
                    *final(self),
                    if is_x { amount as int } else { 0 },
                    if is_x { 0 } else { amount as int },
                    0,
                ),
            }),
            r is Err ==> *final(self) == *old(self),
    {
        if is_x {
            transfer(&mut self.vault_x, &mut self.user_x, amount)
        } else {
            transfer(&mut self.vault_y, &mut self.user_y, amount)
        }
    }

    /// Destroys `amount` of the caller's receipt tokens.
    pub fn burn_lp_tokens(&mut self, amount: u64) -> (r: Result<(), AmmError>)
        ensures
            (match burn_error(old(self).mint_lp, old(self).user_lp, amount) {
                Some(e) => r == Err::<(), AmmError>(e) && *final(self) == *old(self),
                None => r.is_ok() && old(self).paid(*final(self), 0, 0, amount as int),
            }),
            r is Err ==> *final(self) == *old(self),
    {
        burn(&mut self.mint_lp, &mut self.user_lp, amount)
    }
}

/// Whatever a withdrawal pays, it pays from the vaults to the caller: of
/// each asset, the vault and the caller's account hold together what they
/// held before. The receipt tokens that others hold are not touched.
pub proof fn lemma_withdraw_conserves_assets(
    pre: Withdraw,
    post: Withdraw,
    paid_x: int,
    paid_y: int,
    burned: int,
)
    requires
        pre.paid(post, paid_x, paid_y, burned),
    ensures
        post.vault_x.amount + post.user_x.amount == pre.vault_x.amount + pre.user_x.amount,
        post.vault_y.amount + post.user_y.amount == pre.vault_y.amount + pre.user_y.amount,
        post.mint_lp.supply - post.user_lp.amount == pre.mint_lp.supply - pre.user_lp.amount,
        post.config == pre.config,
{
}

/// The rounding favours the pool: each vault holds, for every receipt token
/// that is left, at least what it held for every receipt token before.
pub proof fn lemma_withdraw_favours_pool(
    pre: Withdraw,
    post: Withdraw,
    amount: u64,
    min_x: u64,
    min_y: u64,
)
    requires
        pre.withdraw_error(amount, min_x, min_y) is None,
        pre.paid(post, pre.share(true, amount), pre.share(false, amount), amount as int),
    ensures
        post.vault_x.amount * pre.mint_lp.supply >= pre.vault_x.amount * post.mint_lp.supply,
        post.vault_y.amount * pre.mint_lp.supply >= pre.vault_y.amount * post.mint_lp.supply,
{
    let supply = pre.mint_lp.supply as int;
    let burned = amount as int;
    let share_x = pre.share(true, amount);
    let share_y = pre.share(false, amount);
    let held_x = pre.vault_x.amount as int;
    let held_y = pre.vault_y.amount as int;
    lemma_pro_rata_exact(amount, pre.vault_x.amount, pre.vault_y.amount, pre.mint_lp.supply);
    assert((held_x - share_x) * supply >= held_x * (supply - burned)) by (nonlinear_arith)
        requires
            share_x * supply <= burned * held_x,
    ;
    assert((held_y - share_y) * supply >= held_y * (supply - burned)) by (nonlinear_arith)
        requires
            share_y * supply <= burned * held_y,
    ;
}

/// What a withdrawal pays is pro rata: each share is `amount / supply` of
/// its vault, rounded down, so the two shares are in the proportion of the
/// two vaults up to that rounding, and neither is more than its vault holds.
pub proof fn lemma_withdraw_pro_rata(pre: Withdraw, amount: u64, min_x: u64, min_y: u64)
    requires
        pre.withdraw_error(amount, min_x, min_y) is None,
    ensures
        ({
            let supply = pre.mint_lp.supply;
            let share_x = pre.share(true, amount);
            let share_y = pre.share(false, amount);
            &&& 0 <= share_x <= pre.vault_x.amount
            &&& 0 <= share_y <= pre.vault_y.amount
            &&& share_x * supply <= amount * pre.vault_x.amount < (share_x + 1) * supply
            &&& share_y * supply <= amount * pre.vault_y.amount < (share_y + 1) * supply
            &&& -(pre.vault_y.amount as int) <= share_x * pre.vault_y.amount - share_y
                * pre.vault_x.amount <= pre.vault_x.amount
        }),
{
    lemma_pro_rata_exact(amount, pre.vault_x.amount, pre.vault_y.amount, pre.mint_lp.supply);
}

} // verus!
