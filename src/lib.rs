//! A fungible-token ledger: balances, delegated allowances and a total
//! supply that always equals the sum of all balances.
use vstd::prelude::*;

pub mod ledger;
pub mod storage;
pub mod sum;

pub use ledger::{Approval, Erc20, Error, Event, Transfer};
pub use storage::AccountId;

verus! {

} // verus!
