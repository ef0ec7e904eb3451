//! A token-issuance contract on top of a non-fungible-token ledger: tokens carry
//! a lineage (parent and original token), and the mint fee is split between the
//! lineage's owners, a treasury and a funds account.

pub mod config;
pub mod contract;
pub mod error;
pub mod execute;
pub mod fees;
pub mod lineage;
pub mod payment;
pub mod query;
pub mod response;
pub mod state;
pub mod theorems;
