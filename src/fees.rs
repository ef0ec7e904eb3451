use vstd::prelude::*;
use crate::error::ContractError;
use crate::response::{all_in_denom, sends_view, BankSend, Response};

verus! {

/// `pct` percent of `amount`, truncated toward zero.
pub open spec fn share(amount: int, pct: int) -> int {
    amount * pct / 100
}

/// Relies on cosmwasm_std's `Uint128 * Decimal::percent(pct)`: it computes
/// `amount * (pct * 10^16) / 10^18` in 256 bits, floored, and panics only when
/// the result does not fit in 128 bits.
#[verifier::external_body]
fn percent_of(amount: u128, pct: u64) -> (r: u128)
    requires
        share(amount as int, pct as int) <= u128::MAX,
    ensures
        r == share(amount as int, pct as int),
{
    (cosmwasm_std::Uint128::new(amount) * cosmwasm_std::Decimal::percent(pct)).u128()
}

/// `pct` percent of `amount`, truncated toward zero; never more than `amount`.
pub fn fee_share(amount: u128, pct: u64) -> (r: u128)
    requires
        pct <= 100,
    ensures
        r == share(amount as int, pct as int),
        r <= amount,
{
    proof {
        assert(amount as int * pct as int <= amount as int * 100) by (nonlinear_arith)
            requires pct <= 100;
    }
    percent_of(amount, pct)
}

/// Total of the amounts of a list of (recipient, amount) pairs.
pub open spec fn total(s: Seq<(Seq<char>, int)>) -> int
    decreases s.len(),
{
    if s.len() == 0 {
        0
    } else {
        total(s.drop_last()) + s.last().1
    }
}

/// The value an optional address holds, or `fallback` when it holds none.
pub open spec fn or_else(a: Option<Seq<char>>, fallback: Seq<char>) -> Seq<char> {
    match a {
        Some(x) => x,
        None => fallback,
    }
}

/// The part of the fee that goes neither to the original's owner nor to the
/// parent's owner, before any redirection.
pub open spec fn funds_base(fee: int, original_pct: int, parent_pct: int) -> int {
    fee - share(fee, original_pct) - share(fee, parent_pct)
}

/// Whether the original's owner is paid its share.
pub open spec fn pays_original(original_image: bool, original: Option<Seq<char>>) -> bool {
    original_image && original is Some
}

/// The shares whose payee is missing or ineligible, gathered for the treasury.
pub open spec fn dao_amount(
    fee: int,
    original_pct: int,
    parent_pct: int,
    original_image: bool,
    original: Option<Seq<char>>,
    parent: Option<Seq<char>>,
) -> int {
    (if pays_original(original_image, original) { 0 } else { share(fee, original_pct) })
        + (if parent is Some { 0 } else { share(fee, parent_pct) })
}

/// The transfers that split `fee`, in the order they are issued: the
/// original's owner, the parent's owner, the treasury, and last the funds
/// account (the admin when no funds account is set).
pub open spec fn split_payouts(
    fee: int,
    original_pct: int,
    parent_pct: int,
    original_image: bool,
    original: Option<Seq<char>>,
    parent: Option<Seq<char>>,
    dao: Option<Seq<char>>,
    funds: Option<Seq<char>>,
    admin: Seq<char>,
) -> Seq<(Seq<char>, int)> {
    let to_original = share(fee, original_pct);
    let to_parent = share(fee, parent_pct);
    let to_dao = dao_amount(fee, original_pct, parent_pct, original_image, original, parent);
    let s1: Seq<(Seq<char>, int)> = if pays_original(original_image, original) {
        seq![(original->0, to_original)]
    } else {
        seq![]
    };
    let s2 = if parent is Some {
        s1.push((parent->0, to_parent))
    } else {
        s1
    };
    let s3 = if to_dao > 0 && dao is Some {
        s2.push((dao->0, to_dao))
    } else {
        s2
    };
    let to_funds = if to_dao > 0 && dao is None {
        funds_base(fee, original_pct, parent_pct) + to_dao
    } else {
        funds_base(fee, original_pct, parent_pct)
    };
    s3.push((or_else(funds, admin), to_funds))
}

/// Whether the percentages allow `fee` to be split.
pub open spec fn split_configured(
    fee: Option<u128>,
    original_pct: Option<u64>,
    parent_pct: Option<u64>,
) -> bool {
    fee is Some ==> (original_pct is Some && parent_pct is Some && original_pct->0 + parent_pct->0
        <= 100)
}

pub open spec fn opt_view(a: Option<String>) -> Option<Seq<char>> {
    match a {
        Some(x) => Some(x@),
        None => None,
    }
}

/// The attributes that every mint records.
pub open spec fn mint_attrs(minter: Seq<char>, token_id: Seq<char>) -> Seq<(Seq<char>, Seq<char>)> {
    seq![("action"@, "mint"@), ("minter"@, minter), ("token_id"@, token_id)]
}

proof fn lemma_shares_fit(fee: int, original_pct: int, parent_pct: int)
    requires
        0 <= fee,
        0 <= original_pct,
        0 <= parent_pct,
        original_pct + parent_pct <= 100,
    ensures
        0 <= share(fee, original_pct),
        0 <= share(fee, parent_pct),
        share(fee, original_pct) + share(fee, parent_pct) <= fee,
{
    assert(fee * original_pct + fee * parent_pct <= fee * 100 && 0 <= fee * original_pct && 0
        <= fee * parent_pct) by (nonlinear_arith)
        requires
            0 <= fee,
            0 <= original_pct,
            0 <= parent_pct,
            original_pct + parent_pct <= 100,
    ;
}

/// Every unit of a split fee is paid out exactly once: the amounts of the
/// transfers add up to the fee.
pub proof fn lemma_split_conserves_fee(
    fee: int,
    original_pct: int,
    parent_pct: int,
    original_image: bool,
    original: Option<Seq<char>>,
    parent: Option<Seq<char>>,
    dao: Option<Seq<char>>,
    funds: Option<Seq<char>>,
    admin: Seq<char>,
)
    requires
        0 <= fee,
        0 <= original_pct,
        0 <= parent_pct,
        original_pct + parent_pct <= 100,
    ensures
        total(
            split_payouts(
                fee,
                original_pct,
                parent_pct,
                original_image,
                original,
                parent,
                dao,
                funds,
                admin,
            ),
        ) == fee,
{
    lemma_shares_fit(fee, original_pct, parent_pct);
    let to_original = share(fee, original_pct);
    let to_parent = share(fee, parent_pct);
    let to_dao = dao_amount(fee, original_pct, parent_pct, original_image, original, parent);
    let s1: Seq<(Seq<char>, int)> = if pays_original(original_image, original) {
        seq![(original->0, to_original)]
    } else {
        seq![]
    };
    let s2 = if parent is Some {
        s1.push((parent->0, to_parent))
    } else {
        s1
    };
    let s3 = if to_dao > 0 && dao is Some {
        s2.push((dao->0, to_dao))
    } else {
        s2
    };
    let e = Seq::<(Seq<char>, int)>::empty();
    assert(total(e) == 0);
    if pays_original(original_image, original) {
        lemma_total_push(e, (original->0, to_original));
        assert(s1 =~= e.push((original->0, to_original)));
    }
    if parent is Some {
        lemma_total_push(s1, (parent->0, to_parent));
    }
    if to_dao > 0 && dao is Some {
        lemma_total_push(s2, (dao->0, to_dao));
    }
    let p = split_payouts(fee, original_pct, parent_pct, original_image, original, parent, dao, funds, admin);
    assert(p.drop_last() =~= s3);
}

proof fn lemma_total_push(s: Seq<(Seq<char>, int)>, x: (Seq<char>, int))
    ensures
        total(s.push(x)) == total(s) + x.1,
{
    assert(s.push(x).drop_last() =~= s);
}

/// Whether the percentages allow `fee` to be split.
pub fn split_ready(fee: Option<u128>, original_pct: Option<u64>, parent_pct: Option<u64>) -> (r:
    bool)
    ensures
        r == split_configured(fee, original_pct, parent_pct),
{
    match (fee, original_pct, parent_pct) {
        (None, _, _) => true,
        (Some(_), Some(po), Some(pp)) => po as u128 + pp as u128 <= 100,
        _ => false,
    }
}

/// Builds the outcome of a mint: its attributes and, when a fee is
/// configured, the transfers that split it (see `split_payouts`).
pub fn get_mint_response(
    admin_address: &String,
    mint_message_sender: &String,
    parent_address: Option<String>,
    original_address: Option<String>,
    native_denom: &String,
    fee: Option<u128>,
    parent_percentage: Option<u64>,
    original_percentage: Option<u64>,
    token_id: &String,
    original_image: bool,
    dao_address: Option<String>,
    funds_address: Option<String>,
) -> (r: Result<Response, ContractError>)
    ensures
        r is Err <==> !split_configured(fee, original_percentage, parent_percentage),
        r is Err ==> r->Err_0 == ContractError::InvalidPercentages,
        r is Ok ==> {
            let res = r->Ok_0;
            &&& res.attrs() == mint_attrs(mint_message_sender@, token_id@)
            &&& res.notices@.len() == 0
            &&& all_in_denom(res.sends@, native_denom@)
            &&& fee is None ==> res.sends@.len() == 0
            &&& fee is Some ==> res.transfers() == split_payouts(
                fee->0 as int,
                original_percentage->0 as int,
                parent_percentage->0 as int,
                original_image,
                opt_view(original_address),
                opt_view(parent_address),
                opt_view(dao_address),
                opt_view(funds_address),
                admin_address@,
            )
        },
{
    if !split_ready(fee, original_percentage, parent_percentage) {
        return Err(ContractError::InvalidPercentages);
    }
    let mut res = Response::new();
    res.add_attribute("action", "mint");
    res.add_attribute("minter", mint_message_sender.as_str());
    res.add_attribute("token_id", token_id.as_str());
    proof {
        assert(res.attrs() =~= mint_attrs(mint_message_sender@, token_id@));
    }
    match fee {
        None => Ok(res),
        Some(fee) => {
            let po = original_percentage.unwrap();
            let pp = parent_percentage.unwrap();
            let ghost original_v = opt_view(original_address);
            let ghost parent_v = opt_view(parent_address);
            let ghost dao_v = opt_view(dao_address);
            let ghost funds_v = opt_view(funds_address);
            proof {
                lemma_shares_fit(fee as int, po as int, pp as int);
            }
            let fee_to_original = fee_share(fee, po);
            let fee_to_parent = fee_share(fee, pp);
            let mut fee_to_funds: u128 = fee - fee_to_original - fee_to_parent;
            let mut fee_to_dao: u128 = 0;
            let mut sends: Vec<BankSend> = Vec::new();
            let mut original_to_dao = true;
            let mut parent_to_dao = true;
            if original_image {
                match original_address {
                    Some(oa) => {
                        original_to_dao = false;
                        sends.push(
                            BankSend {
                                to_address: oa,
                                denom: native_denom.clone(),
                                amount: fee_to_original,
                            },
                        );
                    },
                    None => {},
                }
            }
            let ghost s1 = sends_view(sends@);
            match parent_address {
                Some(pa) => {
                    parent_to_dao = false;
                    sends.push(
                        BankSend { to_address: pa, denom: native_denom.clone(), amount: fee_to_parent },
                    );
                },
                None => {},
            }
            let ghost s2 = sends_view(sends@);
            if original_to_dao {
                fee_to_dao = fee_to_dao + fee_to_original;
            }
            if parent_to_dao {
                fee_to_dao = fee_to_dao + fee_to_parent;
            }
            assert(fee_to_dao == dao_amount(fee as int, po as int, pp as int, original_image, original_v, parent_v));
            if fee_to_dao > 0 {
                match dao_address {
                    Some(address) => {
                        sends.push(
                            BankSend { to_address: address, denom: native_denom.clone(), amount: fee_to_dao },
                        );
                    },
                    None => {
                        fee_to_funds = fee_to_funds + fee_to_dao;
                    },
                }
            }
            let ghost s3 = sends_view(sends@);
            let to = match funds_address {
                Some(address) => address,
                None => admin_address.clone(),
            };
            sends.push(BankSend { to_address: to, denom: native_denom.clone(), amount: fee_to_funds });
            proof {
                let e1: Seq<(Seq<char>, int)> = if pays_original(original_image, original_v) {
                    seq![(original_v->0, fee_to_original as int)]
                } else {
                    seq![]
                };
                assert(s1 =~= e1);
                let e2 = if parent_v is Some {
                    e1.push((parent_v->0, fee_to_parent as int))
                } else {
                    e1
                };
                assert(s2 =~= e2);
                let e3 = if fee_to_dao > 0 && dao_v is Some {
                    e2.push((dao_v->0, fee_to_dao as int))
                } else {
                    e2
                };
                assert(s3 =~= e3);
                assert(sends_view(sends@) =~= split_payouts(
                    fee as int,
                    po as int,
                    pp as int,
                    original_image,
                    original_v,
                    parent_v,
                    dao_v,
                    funds_v,
                    admin_address@,
                ));
            }
            res.sends = sends;
            Ok(res)
        },
    }
}

} // verus!
