//! An ERC-20 style fungible token ledger with verified contracts.
//!
//! The ledger keeps balances and allowances, moves tokens between accounts,
//! and records the `Transfer` and `Approval` events that each successful
//! operation produces, for the host to publish.
use vstd::prelude::*;

pub mod laws;
pub mod table;
pub mod token;

verus! {

/// A 32-byte account identifier, as used by the contracts host.
pub type AccountId = [u8; 32];

/// An amount of tokens.
pub type Balance = u128;

} // verus!

pub use token::{Approval, Erc20, Erc20Model, Erc20Parts, Error, Event, Transfer};
