//! A fungible-token ledger: a fixed total supply of units spread over
//! accounts, direct transfers, and transfers by a spender under an allowance.
//! The caller of each operation is passed in by the host, which also keeps the
//! ledger durable and delivers the notifications that it emits.
pub mod account;
pub mod entries;
pub mod ledger;
pub mod laws;

pub use account::AccountId;
pub use ledger::{Approval, Balance, Erc20, Error, Event, Transfer};
