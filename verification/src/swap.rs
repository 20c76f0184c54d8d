//! Selling one asset of the pair to the pool for the other.

use vstd::prelude::*;
use vstd::arithmetic::div_mod::lemma_div_pos_is_pos;
use vstd::arithmetic::mul::lemma_mul_is_commutative;
use crate::curve::{
    amount_out,
    fee_amount,
    lemma_amount_out_bounds,
    lemma_pricing_error_at_valid_rate,
    lemma_product_after_swap,
    new_reserve_out,
    pricing_error,
    rounding_loss,
    swap_amount_out,
    BPS_DENOMINATOR,
};
use crate::errors::AmmError;
use crate::state::Config;
use crate::token::{transfer, transfer_error, TokenAccount};

verus! {

/// What a swap reads and writes: the pool's record, its two vaults, and the
/// caller's accounts of the two assets.
#[derive(Clone, Copy, Debug, PartialEq, Eq, Structural)]
pub struct Swap {
    pub config: Config,
    pub vault_x: TokenAccount,
    pub vault_y: TokenAccount,
    pub user_x: TokenAccount,
    pub user_y: TokenAccount,
}

impl Swap {
    /// The vault that takes the asset sold: X where `is_x`, else Y.
    pub open spec fn vault_in(self, is_x: bool) -> TokenAccount {
        if is_x {
            self.vault_x
        } else {
            self.vault_y
        }
    }

    /// The vault that pays the asset bought.
    pub open spec fn vault_out(self, is_x: bool) -> TokenAccount {
        if is_x {
            self.vault_y
        } else {
            self.vault_x
        }
    }

    /// The caller's account of the asset sold.
    pub open spec fn user_in(self, is_x: bool) -> TokenAccount {
        if is_x {
            self.user_x
        } else {
            self.user_y
        }
    }

    /// The caller's account of the asset bought.
    pub open spec fn user_out(self, is_x: bool) -> TokenAccount {
        if is_x {
            self.user_y
        } else {
            self.user_x
        }
    }

    /// `post` is `self` after `paid_in` went from the caller to the vault of
    /// the asset sold and `paid_out` from the other vault to the caller.
    /// Nothing else differs.
    pub open spec fn moved(self, post: Swap, is_x: bool, paid_in: int, paid_out: int) -> bool {
        &&& post.config == self.config
        &&& post.vault_in(is_x).amount == self.vault_in(is_x).amount + paid_in
        &&& post.user_in(is_x).amount == self.user_in(is_x).amount - paid_in
        &&& post.vault_out(is_x).amount == self.vault_out(is_x).amount - paid_out
        &&& post.user_out(is_x).amount == self.user_out(is_x).amount + paid_out
    }

    /// The product of the two vaults, which the pricing holds about constant.
    pub open spec fn product(self) -> int {
        self.vault_x.amount * self.vault_y.amount
    }

    /// What selling `amount` leaves in the pool as the fee.
    pub open spec fn swap_fee(self, amount: u64) -> int {
        fee_amount(amount, self.config.fee)
    }

    /// What the pricing of selling `amount` loses to rounding, in units of
    /// the product of the vaults.
    pub open spec fn swap_rounding(self, is_x: bool, amount: u64) -> int {
        rounding_loss(
            self.vault_in(is_x).amount,
            self.vault_out(is_x).amount,
            amount,
            self.config.fee,
        )
    }

    /// What selling `amount` pays out at the present reserves.
    pub open spec fn swap_amount_out(self, is_x: bool, amount: u64) -> int {
        amount_out(
            self.vault_in(is_x).amount,
            self.vault_out(is_x).amount,
            amount,
            self.config.fee,
        )
    }

    /// Why a swap is refused, if it is. The tests are made in this order and
    /// the first that fails decides: the lock, the input, the pricing, the
    /// caller's floor, and then the two movements, in and out.
    pub open spec fn swap_error(self, is_x: bool, amount: u64, min: u64) -> Option<AmmError> {
        let priced = pricing_error(self.vault_in(is_x).amount, amount, self.config.fee);
        let out = self.swap_amount_out(is_x, amount);
        let paid_in = transfer_error(self.user_in(is_x), self.vault_in(is_x), amount);
        if self.config.locked {
            Some(AmmError::PoolLocked)
        } else if amount == 0 {
            Some(AmmError::InvalidAmount)
        } else if priced is Some {
            priced
        } else if out < min {
            Some(AmmError::SlippageExceeded)
        } else if paid_in is Some {
            paid_in
        } else {
            transfer_error(self.vault_out(is_x), self.user_out(is_x), out as u64)
        }
    }

    /// Gathers what a swap works on. The caller's account of X must exist;
    /// the one of Y is provisioned where it does not.
    pub fn new(
        config: Config,
        vault_x: TokenAccount,
        vault_y: TokenAccount,
        user_x: TokenAccount,
        user_y: Option<TokenAccount>,
    ) -> (swap: Swap)
        ensures
            swap == (Swap {
                config,
                vault_x,
                vault_y,
                user_x,
                user_y: TokenAccount::provisioned(user_y),
            }),
    {
        Swap { config, vault_x, vault_y, user_x, user_y: TokenAccount::init_if_needed(user_y) }
    }

    /// Sells `amount` of X (where `is_x`, else of Y) for the other asset,
    /// and returns what was paid out. A swap that would pay less than `min`
    /// is refused. A refused swap changes nothing.
    pub fn swap(&mut self, is_x: bool, amount: u64, min: u64) -> (r: Result<u64, AmmError>)
        ensures
            (match old(self).swap_error(is_x, amount, min) {
                Some(e) => r == Err::<u64, AmmError>(e) && *final(self) == *old(self),
                None => {
                    &&& r matches Ok(out)
                    &&& out == old(self).swap_amount_out(is_x, amount)
                    &&& out >= min
                    &&& old(self).moved(*final(self), is_x, amount as int, out as int)
                },
            }),
            old(self).swap_amount_out(is_x, amount) < min ==> r is Err,
            r is Err ==> *final(self) == *old(self),
    {
        if self.config.locked {
            return Err(AmmError::PoolLocked);
        }
        if amount == 0 {
            return Err(AmmError::InvalidAmount);
        }
        let (reserve_in, reserve_out): (u64, u64) = if is_x {
            (self.vault_x.amount, self.vault_y.amount)
        } else {
            (self.vault_y.amount, self.vault_x.amount)
        };
        let out: u64 = match swap_amount_out(reserve_in, reserve_out, amount, self.config.fee) {
            Ok(out) => out,
            Err(e) => {
                return Err(e);
            },
        };
        if out < min {
            return Err(AmmError::SlippageExceeded);
        }
        let mut next: Swap = *self;
        if let Err(e) = next.deposit_tokens(is_x, amount) {
            return Err(e);
        }
        if let Err(e) = next.withdraw_tokens(is_x, out) {
            return Err(e);
        }
        *self = next;
        Ok(out)
    }

    /// Moves `amount` of the asset sold from the caller into its vault.
    pub fn deposit_tokens(&mut self, is_x: bool, amount: u64) -> (r: Result<(), AmmError>)
        ensures
            (match transfer_error(old(self).user_in(is_x), old(self).vault_in(is_x), amount) {
                Some(e) => r == Err::<(), AmmError>(e) && *final(self) == *old(self),
                None => r.is_ok() && old(self).moved(*final(self), is_x, amount as int, 0),
            }),
            r is Err ==> *final(self) == *old(self),
    {
        if is_x {
            transfer(&mut self.user_x, &mut self.vault_x, amount)
        } else {
            transfer(&mut self.user_y, &mut self.vault_y, amount)
        }
    }

    /// Moves `amount` of the asset bought from its vault to the caller.
    pub fn withdraw_tokens(&mut self, is_x: bool, amount: u64) -> (r: Result<(), AmmError>)
        ensures
            (match transfer_error(old(self).vault_out(is_x), old(self).user_out(is_x), amount) {
                Some(e) => r == Err::<(), AmmError>(e) && *final(self) == *old(self),
                None => r.is_ok() && old(self).moved(*final(self), is_x, 0, amount as int),
            }),
            r is Err ==> *final(self) == *old(self),
    {
        if is_x {
            transfer(&mut self.vault_y, &mut self.user_y, amount)
        } else {
            transfer(&mut self.vault_x, &mut self.user_x, amount)
        }
    }
}

/// Whatever a swap moves, it moves between the caller and the pool: of
/// each asset, the vault and the caller's account hold together what they
/// held before.
pub proof fn lemma_swap_conserves_assets(
    pre: Swap,
    post: Swap,
    is_x: bool,
    paid_in: int,
    paid_out: int,
)
    requires
        pre.moved(post, is_x, paid_in, paid_out),
    ensures
        post.vault_x.amount + post.user_x.amount == pre.vault_x.amount + pre.user_x.amount,
        post.vault_y.amount + post.user_y.amount == pre.vault_y.amount + pre.user_y.amount,
        post.config == pre.config,
{
}

/// In a pool whose fee rate is at most one, the fee is at most the input
/// and never fails a swap: the pricing then fails only where the new
/// reserve of the asset sold does not fit a balance or is zero.
pub proof fn lemma_swap_fee_at_valid_rate(pre: Swap, is_x: bool, amount: u64)
    requires
        pre.config.wf(),
    ensures
        0 <= pre.swap_fee(amount) <= amount,
        pricing_error(pre.vault_in(is_x).amount, amount, pre.config.fee) is None <==> 0
            < pre.vault_in(is_x).amount + amount - pre.swap_fee(amount) <= u64::MAX,
{
    lemma_pricing_error_at_valid_rate(pre.vault_in(is_x).amount, amount, pre.config.fee);
}

/// A swap that is priced never asks more of the paying vault than it holds.
pub proof fn lemma_swap_never_overdraws(pre: Swap, is_x: bool, amount: u64)
    requires
        pricing_error(pre.vault_in(is_x).amount, amount, pre.config.fee) is None,
    ensures
        0 <= pre.swap_amount_out(is_x, amount) <= pre.vault_out(is_x).amount,
{
    lemma_amount_out_bounds(
        pre.vault_in(is_x).amount,
        pre.vault_out(is_x).amount,
        amount,
        pre.config.fee,
    );
}

/// What a swap does to the product of the vaults. The fee, which stays in
/// the vault of the asset sold, raises it by the fee times what is left of
/// the asset bought. The rounding of the pricing, which goes to the caller,
/// lowers it by less than the new reserve of the asset sold.
pub proof fn lemma_swap_product(pre: Swap, post: Swap, is_x: bool, amount: u64, min: u64)
    requires
        pre.swap_error(is_x, amount, min) is None,
        pre.moved(post, is_x, amount as int, pre.swap_amount_out(is_x, amount)),
    ensures
        post.product() == pre.product() + pre.swap_fee(amount) * post.vault_out(is_x).amount
            - pre.swap_rounding(is_x, amount),
        0 <= pre.swap_fee(amount) <= amount,
        0 <= pre.swap_rounding(is_x, amount) < pre.vault_in(is_x).amount + amount
            - pre.swap_fee(amount),
{
    let reserve_in = pre.vault_in(is_x).amount;
    let reserve_out = pre.vault_out(is_x).amount;
    lemma_product_after_swap(reserve_in, reserve_out, amount, pre.config.fee);
    assert(post.vault_in(is_x).amount == reserve_in + amount);
    assert(post.vault_out(is_x).amount == new_reserve_out(
        reserve_in,
        reserve_out,
        amount,
        pre.config.fee,
    ));
    assert(0 <= amount * pre.config.fee) by (nonlinear_arith);
    lemma_div_pos_is_pos(amount * pre.config.fee, BPS_DENOMINATOR as int);
    if !is_x {
        lemma_mul_is_commutative(pre.vault_x.amount as int, pre.vault_y.amount as int);
        lemma_mul_is_commutative(post.vault_x.amount as int, post.vault_y.amount as int);
    }
}

/// A swap does not lower the product of the vaults where the fee that it
/// leaves in the pool makes up for the rounding of its pricing, and only
/// there. The product stays as it was where the one just cancels the other.
pub proof fn lemma_swap_product_non_decreasing(
    pre: Swap,
    post: Swap,
    is_x: bool,
    amount: u64,
    min: u64,
)
    requires
        pre.swap_error(is_x, amount, min) is None,
        pre.moved(post, is_x, amount as int, pre.swap_amount_out(is_x, amount)),
        pre.swap_rounding(is_x, amount) <= pre.swap_fee(amount) * post.vault_out(is_x).amount,
    ensures
        post.product() >= pre.product(),
        post.product() == pre.product() <==> pre.swap_rounding(is_x, amount) == pre.swap_fee(
            amount,
        ) * post.vault_out(is_x).amount,
{
    lemma_swap_product(pre, post, is_x, amount, min);
}

/// A swap that leaves no fee in the pool never raises the product of the
/// vaults, and keeps it where the division that prices it is exact.
pub proof fn lemma_swap_product_without_fee(
    pre: Swap,
    post: Swap,
    is_x: bool,
    amount: u64,
    min: u64,
)
    requires
        pre.swap_error(is_x, amount, min) is None,
        pre.moved(post, is_x, amount as int, pre.swap_amount_out(is_x, amount)),
        pre.swap_fee(amount) == 0,
    ensures
        post.product() == pre.product() - pre.swap_rounding(is_x, amount),
        post.product() <= pre.product(),
{
    lemma_swap_product(pre, post, is_x, amount, min);
    assert(pre.swap_fee(amount) * post.vault_out(is_x).amount == 0) by (nonlinear_arith)
        requires
            pre.swap_fee(amount) == 0,
    ;
}

/// A swap that would pay less than the caller's floor is refused, and
/// raising the floor never turns a refusal into an acceptance.
pub proof fn lemma_slippage_rejection(pre: Swap, is_x: bool, amount: u64, min: u64, higher: u64)
    requires
        min <= higher,
    ensures
        pre.swap_amount_out(is_x, amount) < min ==> pre.swap_error(is_x, amount, min) is Some,
        pre.swap_error(is_x, amount, min) is Some ==> pre.swap_error(is_x, amount, higher) is Some,
        pre.swap_error(is_x, amount, min) == Some(AmmError::SlippageExceeded)
            ==> pre.swap_error(is_x, amount, higher) == Some(AmmError::SlippageExceeded),
{
}

} // verus!
