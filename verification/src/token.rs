//! Balances: token accounts, the receipt token's mint, and the two ways in
//! which value moves between them.

use vstd::prelude::*;
use crate::errors::AmmError;

verus! {

/// A balance of one asset: a vault of the pool, or an account of the caller.
#[derive(Clone, Copy, Debug, PartialEq, Eq, Structural)]
pub struct TokenAccount {
    pub amount: u64,
}

/// The issuer of the receipt token. Its supply is the sum of all claims on the vaults.
#[derive(Clone, Copy, Debug, PartialEq, Eq, Structural)]
pub struct Mint {
    pub supply: u64,
}

impl TokenAccount {
    /// The account that provisioning yields: the existing one, untouched, or
    /// an empty one where there was none.
    pub open spec fn provisioned(existing: Option<TokenAccount>) -> TokenAccount {
        match existing {
            Some(account) => account,
            None => TokenAccount { amount: 0 },
        }
    }

    /// Makes sure that the caller has an account to receive into.
    pub fn init_if_needed(existing: Option<TokenAccount>) -> (account: TokenAccount)
        ensures
            account == Self::provisioned(existing),
    {
        match existing {
            Some(account) => account,
            None => TokenAccount { amount: 0 },
        }
    }
}

/// Why `transfer` refuses to move `amount` between the two balances, if it does.
pub open spec fn transfer_error(from: TokenAccount, to: TokenAccount, amount: u64) -> Option<
    AmmError,
> {
    if from.amount < amount {
        Some(AmmError::InsufficientBalance)
    } else if to.amount + amount > u64::MAX {
        Some(AmmError::Overflow)
    } else {
        None
    }
}

/// Moves `amount` from one balance to another. Either both balances change
/// or neither does.
pub fn transfer(
    from: &mut TokenAccount,
    to: &mut TokenAccount,
    amount: u64,
) -> (r: Result<(), AmmError>)
    ensures
        (match transfer_error(*old(from), *old(to), amount) {
            Some(e) => {
                &&& r == Err::<(), AmmError>(e)
                &&& *final(from) == *old(from)
                &&& *final(to) == *old(to)
            },
            None => {
                &&& r.is_ok()
                &&& final(from).amount == old(from).amount - amount
                &&& final(to).amount == old(to).amount + amount
            },
        }),
        r is Err ==> *final(from) == *old(from) && *final(to) == *old(to),
{
    if from.amount < amount {
        return Err(AmmError::InsufficientBalance);
    }
    if to.amount > u64::MAX - amount {
        return Err(AmmError::Overflow);
    }
    from.amount = from.amount - amount;
    to.amount = to.amount + amount;
    Ok(())
}

/// Why `burn` refuses to destroy `amount` of the holder's receipt tokens, if it does.
pub open spec fn burn_error(mint: Mint, from: TokenAccount, amount: u64) -> Option<AmmError> {
    if from.amount < amount {
        Some(AmmError::InsufficientBalance)
    } else if mint.supply < amount {
        Some(AmmError::Underflow)
    } else {
        None
    }
}

/// Destroys `amount` of the receipt token: the holder's balance and the
/// mint's supply go down together, or neither does.
pub fn burn(mint: &mut Mint, from: &mut TokenAccount, amount: u64) -> (r: Result<(), AmmError>)
    ensures
        (match burn_error(*old(mint), *old(from), amount) {
            Some(e) => {
                &&& r == Err::<(), AmmError>(e)
                &&& *final(mint) == *old(mint)
                &&& *final(from) == *old(from)
            },
            None => {
                &&& r.is_ok()
                &&& final(mint).supply == old(mint).supply - amount
                &&& final(from).amount == old(from).amount - amount
            },
        }),
        r is Err ==> *final(mint) == *old(mint) && *final(from) == *old(from),
{
    if from.amount < amount {
        return Err(AmmError::InsufficientBalance);
    }
    if mint.supply < amount {
        return Err(AmmError::Underflow);
    }
    from.amount = from.amount - amount;
    mint.supply = mint.supply - amount;
    Ok(())
}

/// Provisioning is idempotent: an account that exists comes back as it is,
/// and provisioning what was provisioned changes nothing more.
pub proof fn lemma_provisioning_idempotent(existing: Option<TokenAccount>)
    ensures
        existing matches Some(account) ==> TokenAccount::provisioned(existing) == account,
        existing is None ==> TokenAccount::provisioned(existing).amount == 0,
        TokenAccount::provisioned(Some(TokenAccount::provisioned(existing)))
            == TokenAccount::provisioned(existing),
{
}

} // verus!
