//! Accounting core of a two-asset constant-product market maker.
//!
//! The crate models a pool as plain balances and states, as contracts that
//! are machine-checked, what a swap and a withdrawal do to them.

pub mod curve;
pub mod errors;
pub mod state;
pub mod swap;
pub mod token;
pub mod withdraw;

pub use errors::AmmError;
pub use state::Config;
pub use swap::Swap;
pub use token::{burn, transfer, Mint, TokenAccount};
pub use withdraw::Withdraw;
