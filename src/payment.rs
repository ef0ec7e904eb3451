use vstd::prelude::*;
use crate::error::FundsError;

verus! {

/// An amount of one native denomination.
pub struct Coin {
    pub denom: String,
    pub amount: u128,
}

/// Whether the attached funds are exactly one coin of non-zero amount.
pub open spec fn is_one_coin(funds: Seq<Coin>) -> bool {
    funds.len() == 1 && funds[0].amount > 0
}

/// The error that `one_coin_of` reports for funds that are not one coin.
pub open spec fn one_coin_error(funds: Seq<Coin>) -> FundsError {
    if funds.len() > 1 {
        FundsError::MultipleDenoms
    } else {
        FundsError::NoFunds
    }
}

/// cw_utils's payment error, carried opaquely until it is converted.
#[verifier::external_type_specification]
#[verifier::external_body]
pub struct ExPaymentError(cw_utils::PaymentError);

/// Converts cw_utils's `PaymentError` variant for variant; only the
/// denomination is moved.
#[verifier::external_body]
fn payment_error_of(e: cw_utils::PaymentError) -> FundsError {
    match e {
        cw_utils::PaymentError::MissingDenom(d) => FundsError::MissingDenom(d),
        cw_utils::PaymentError::ExtraDenom(d) => FundsError::ExtraDenom(d),
        cw_utils::PaymentError::MultipleDenoms {} => FundsError::MultipleDenoms,
        cw_utils::PaymentError::NoFunds {} => FundsError::NoFunds,
        cw_utils::PaymentError::NonPayable {} => FundsError::NonPayable,
    }
}

/// Relies on cw_utils::one_coin: no coin, or one coin of amount zero, is
/// `NoFunds`; two or more coins are `MultipleDenoms`; otherwise the one coin.
#[verifier::external_body]
fn one_coin_of(funds: &Vec<Coin>) -> (r: Result<Coin, FundsError>)
    ensures
        is_one_coin(funds@) ==> r is Ok && r->Ok_0.denom@ == funds@[0].denom@ && r->Ok_0.amount
            == funds@[0].amount,
        !is_one_coin(funds@) ==> r is Err && r->Err_0 == one_coin_error(funds@),
{
    let info = cosmwasm_std::MessageInfo {
        sender: cosmwasm_std::Addr::unchecked(""),
        funds: funds.iter().map(|c| cosmwasm_std::coin(c.amount, c.denom.as_str())).collect(),
    };
    match cw_utils::one_coin(&info) {
        Ok(c) => Ok(Coin { denom: c.denom, amount: c.amount.u128() }),
        Err(e) => Err(payment_error_of(e)),
    }
}

/// Relies on cw_utils::must_pay: the errors of `one_coin`, then
/// `MissingDenom(denom)` when the one coin is of another denomination;
/// otherwise the coin's amount.
#[verifier::external_body]
fn must_pay_of(funds: &Vec<Coin>, denom: &String) -> (r: Result<u128, FundsError>)
    ensures
        !is_one_coin(funds@) ==> r is Err && r->Err_0 == one_coin_error(funds@),
        is_one_coin(funds@) && funds@[0].denom@ == denom@ ==> r is Ok
            && r->Ok_0 == funds@[0].amount,
        is_one_coin(funds@) && funds@[0].denom@ != denom@ ==> r is Err && r->Err_0 is MissingDenom
            && r->Err_0->MissingDenom_0@ == denom@,
{
    let info = cosmwasm_std::MessageInfo {
        sender: cosmwasm_std::Addr::unchecked(""),
        funds: funds.iter().map(|c| cosmwasm_std::coin(c.amount, c.denom.as_str())).collect(),
    };
    match cw_utils::must_pay(&info, denom) {
        Ok(a) => Ok(a.u128()),
        Err(e) => Err(payment_error_of(e)),
    }
}

/// Whether the attached funds pay for a mint: one coin, and, when a fee is
/// configured, of the native denomination.
pub open spec fn payment_accepted(funds: Seq<Coin>, denom: Seq<char>, fee: Option<u128>) -> bool {
    is_one_coin(funds) && (fee is Some ==> funds[0].denom@ == denom)
}

/// Checks the funds attached to a mint against the configured fee and
/// returns the amount attached.
pub fn check_payment(funds: &Vec<Coin>, denom: &String, fee: Option<u128>) -> (r: Result<
    u128,
    FundsError,
>)
    ensures
        r is Ok <==> payment_accepted(funds@, denom@, fee),
        r is Ok ==> r->Ok_0 == funds@[0].amount,
        !is_one_coin(funds@) ==> r is Err && r->Err_0 == one_coin_error(funds@),
        !payment_accepted(funds@, denom@, fee) && is_one_coin(funds@) ==> r is Err
            && r->Err_0 is MissingDenom && r->Err_0->MissingDenom_0@ == denom@,
{
    let coin = one_coin_of(funds)?;
    if fee.is_some() {
        must_pay_of(funds, denom)?;
    }
    Ok(coin.amount)
}

} // verus!
