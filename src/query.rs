use vstd::prelude::*;
use crate::config::OriginalAdmins;
use crate::contract::{MemeArt, CONTRACT_NAME, CONTRACT_VERSION};
use crate::error::ContractError;
use crate::state::{copy_text, min, Ledger, Metadata};

verus! {

pub struct ContractInfoResponse {
    pub contract_name: String,
    pub contract_version: String,
    pub native_denom: String,
    pub native_decimals: u32,
    pub token_cap: Option<u64>,
    pub base_mint_fee: Option<u128>,
    pub burn_percentage: Option<u64>,
    pub original_percentage: Option<u64>,
    pub parent_percentage: Option<u64>,
    pub dao_address: Option<String>,
    pub funds_address: Option<String>,
}

pub struct AddressOfResponse {
    pub owner: String,
    pub contract_address: Option<String>,
    pub validator_address: Option<String>,
}

pub struct IsContractResponse {
    pub contract_address: String,
}

pub struct GetParentIdResponse {
    pub parent_token_id: String,
}

pub struct MemeArtNftInfoResponse {
    pub token_uri: Option<String>,
    pub extension: Metadata,
}

/// The contract's identity and fee schedule.
pub fn contract_info(c: &MemeArt) -> (r: ContractInfoResponse)
    ensures
        r.contract_name@ == CONTRACT_NAME@,
        r.contract_version@ == CONTRACT_VERSION@,
        r.native_denom == c.minting_fees.native_denom,
        r.native_decimals == c.minting_fees.native_decimals,
        r.token_cap == c.minting_fees.token_cap,
        r.base_mint_fee == c.minting_fees.base_mint_fee,
        r.burn_percentage == c.minting_fees.burn_percentage,
        r.original_percentage == c.minting_fees.original_percentage,
        r.parent_percentage == c.minting_fees.parent_percentage,
        r.dao_address == c.minting_fees.dao_address,
        r.funds_address == c.minting_fees.funds_address,
{
    let f = &c.minting_fees;
    ContractInfoResponse {
        contract_name: CONTRACT_NAME.to_owned(),
        contract_version: CONTRACT_VERSION.to_owned(),
        native_denom: f.native_denom.clone(),
        native_decimals: f.native_decimals,
        token_cap: f.token_cap,
        base_mint_fee: f.base_mint_fee,
        burn_percentage: f.burn_percentage,
        original_percentage: f.original_percentage,
        parent_percentage: f.parent_percentage,
        dao_address: copy_text(&f.dao_address),
        funds_address: copy_text(&f.funds_address),
    }
}

/// The origin admins; `NotFound` before they are first named.
pub fn original_admin(c: &MemeArt) -> (r: Result<OriginalAdmins, ContractError>)
    ensures
        r is Ok <==> c.origin_admins is Some,
        r is Ok ==> r->Ok_0 == c.origin_admins->0,
        r is Err ==> r->Err_0 == ContractError::NotFound,
{
    match &c.origin_admins {
        Some(a) => Ok(
            OriginalAdmins {
                original_admin_address1: a.original_admin_address1.clone(),
                original_admin_address2: a.original_admin_address2.clone(),
                original_admin_address3: a.original_admin_address3.clone(),
            },
        ),
        None => Err(ContractError::NotFound),
    }
}

/// The contract address stored in a token's extension.
pub fn is_contract(c: &MemeArt, token_id: &String) -> (r: Result<IsContractResponse, ContractError>)
    requires
        c.wf(),
    ensures
        r is Ok <==> c.ledger@.contains_key(token_id@)
            && c.ledger@[token_id@].extension.contract_address is Some,
        r is Ok ==> r->Ok_0.contract_address == c.ledger@[token_id@].extension.contract_address->0,
        r is Err ==> r->Err_0 == ContractError::NotFound,
{
    let token = c.ledger.load(token_id)?;
    match &token.extension.contract_address {
        Some(addr) => Ok(IsContractResponse { contract_address: addr.clone() }),
        None => Err(ContractError::NotFound),
    }
}

/// A token's owner and the addresses stored in its extension.
pub fn address_of(c: &MemeArt, token_id: &String) -> (r: Result<AddressOfResponse, ContractError>)
    requires
        c.wf(),
    ensures
        r is Ok <==> c.ledger@.contains_key(token_id@),
        r is Ok ==> {
            let t = c.ledger@[token_id@];
            &&& r->Ok_0.owner == t.owner
            &&& r->Ok_0.contract_address == t.extension.contract_address
            &&& r->Ok_0.validator_address == t.extension.validator_operator_address
        },
        r is Err ==> r->Err_0 == ContractError::NotFound,
{
    let token = c.ledger.load(token_id)?;
    Ok(
        AddressOfResponse {
            owner: token.owner.clone(),
            contract_address: copy_text(&token.extension.contract_address),
            validator_address: copy_text(&token.extension.validator_operator_address),
        },
    )
}

/// Whether a token and the parent it names are both in the ledger.
pub open spec fn parent_present(c: MemeArt, token_id: Seq<char>) -> bool {
    &&& c.ledger@.contains_key(token_id)
    &&& c.ledger@[token_id].extension.parent_token_id is Some
    &&& c.ledger@.contains_key(c.ledger@[token_id].extension.parent_token_id->0@)
}

/// The parent of a token; `NotFound` when the token, its parent reference or
/// the parent itself is missing.
pub fn get_parent_id(c: &MemeArt, token_id: &String) -> (r: Result<
    GetParentIdResponse,
    ContractError,
>)
    requires
        c.wf(),
    ensures
        r is Ok <==> parent_present(*c, token_id@),
        r is Ok ==> r->Ok_0.parent_token_id == c.ledger@[token_id@].extension.parent_token_id->0,
        r is Err ==> r->Err_0 == ContractError::NotFound,
{
    let token = c.ledger.load(token_id)?;
    match &token.extension.parent_token_id {
        Some(pti) => {
            let _parent = c.ledger.load(pti)?;
            Ok(GetParentIdResponse { parent_token_id: pti.clone() })
        },
        None => Err(ContractError::NotFound),
    }
}

/// The URI and extension of a token's parent.
pub fn get_parent_nft_info(c: &MemeArt, token_id: &String) -> (r: Result<
    MemeArtNftInfoResponse,
    ContractError,
>)
    requires
        c.wf(),
    ensures
        r is Ok <==> parent_present(*c, token_id@),
        r is Ok ==> {
            let p = c.ledger@[c.ledger@[token_id@].extension.parent_token_id->0@];
            &&& r->Ok_0.token_uri == p.token_uri
            &&& r->Ok_0.extension == p.extension
        },
        r is Err ==> r->Err_0 == ContractError::NotFound,
{
    let token = c.ledger.load(token_id)?;
    match &token.extension.parent_token_id {
        Some(pti) => {
            let parent = c.ledger.load(pti)?;
            Ok(
                MemeArtNftInfoResponse {
                    token_uri: copy_text(&parent.token_uri),
                    extension: parent.extension.copy(),
                },
            )
        },
        None => Err(ContractError::NotFound),
    }
}

/// How many tokens `address` owns, counting no further than `default_limit`.
pub fn get_number_of_owned_tokens(ledger: &Ledger, address: &String, default_limit: usize) -> (r:
    usize)
    requires
        ledger.wf(),
    ensures
        r == min(ledger.owned(address@) as int, default_limit as int),
{
    ledger.owned_up_to(address, default_limit)
}

} // verus!
