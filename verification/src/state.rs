//! The pool's own record: its identity and its policy.

use vstd::prelude::*;
use crate::curve::BPS_DENOMINATOR;

verus! {

/// The record of one trading pair. Swaps and withdrawals read it and never
/// change it.
#[derive(Clone, Copy, Debug, PartialEq, Eq, Structural)]
pub struct Config {
    /// Tells this pool from others; the pool's address is derived from it.
    pub seed: u64,
    /// The fee on a swap's input, in basis points.
    pub fee: u16,
    /// While set, swaps are refused. Withdrawals are not.
    pub locked: bool,
    /// The salt of the address from which the pool signs for its vaults.
    pub config_bump: u8,
    /// The salt of the address of the receipt token's mint.
    pub lp_bump: u8,
}

impl Config {
    /// The fee is a rate of at most one.
    pub open spec fn wf(self) -> bool {
        self.fee <= BPS_DENOMINATOR
    }

    /// Makes the record of a new pool, which is open for swaps. A rate above
    /// one is refused.
    pub fn new(seed: u64, fee: u16, config_bump: u8, lp_bump: u8) -> (r: Option<Config>)
        ensures
            r is Some <==> fee <= BPS_DENOMINATOR,
            r matches Some(config) ==> config.wf() && config == (Config {
                seed,
                fee,
                locked: false,
                config_bump,
                lp_bump,
            }),
    {
        if fee as u64 > BPS_DENOMINATOR {
            None
        } else {
            Some(Config { seed, fee, locked: false, config_bump, lp_bump })
        }
    }
}

} // verus!
