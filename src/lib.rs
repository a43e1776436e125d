//! Order creation for an account-based ledger program: the instruction and
//! record codecs, the account role check, the seed-derived address binding,
//! and the creation pipeline over a model of the host ledger.

pub mod error;
pub mod codec;
pub mod address;
pub mod roles;
pub mod ledger;
pub mod processor;
