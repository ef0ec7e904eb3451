use vstd::prelude::*;

verus! {

/// Why a payment attached to a call was refused.
#[derive(Debug, PartialEq, Eq)]
pub enum FundsError {
    MissingDenom(String),
    ExtraDenom(String),
    MultipleDenoms,
    NoFunds,
    NonPayable,
}

/// Every way an operation of the contract can fail.
#[derive(Debug, PartialEq, Eq)]
pub enum ContractError {
    Unauthorized,
    TokenCapExceeded,
    InsufficientFunds,
    Claimed,
    NotFound,
    Payment(FundsError),
    /// A base fee is configured but a split percentage is unset, or the two
    /// percentages add up to more than one hundred.
    InvalidPercentages,
    /// The supply counter cannot be raised any further.
    SupplyOverflow,
}

} // verus!
