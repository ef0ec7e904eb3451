use vstd::prelude::*;
use crate::config::{InstantiateMsg, MintingFees, OriginalAdmins};
use crate::error::ContractError;
use crate::response::Response;
use crate::state::Ledger;

verus! {

pub const CONTRACT_NAME: &'static str = "crates.io:memeart";

pub const CONTRACT_VERSION: &'static str = "0.1.0";

/// The whole state of the contract: the ledger and the configuration.
pub struct MemeArt {
    pub ledger: Ledger,
    pub minting_fees: MintingFees,
    /// The address with authority over the configuration.
    pub admin: String,
    /// Unset until the admin first names them.
    pub origin_admins: Option<OriginalAdmins>,
}

impl MemeArt {
    pub open spec fn wf(&self) -> bool {
        self.ledger.wf()
    }
}

/// A new contract with an empty ledger and the configuration of `msg`.
pub fn execute_instantiate(msg: InstantiateMsg) -> (r: MemeArt)
    ensures
        r.wf(),
        r.ledger@ == Map::<Seq<char>, crate::state::TokenInfo>::empty(),
        r.ledger.count() == 0,
        r.admin == msg.admin_address,
        r.origin_admins is None,
        r.minting_fees == (MintingFees {
            native_denom: msg.native_denom,
            native_decimals: msg.native_decimals,
            token_cap: msg.token_cap,
            base_mint_fee: msg.base_mint_fee,
            burn_percentage: msg.burn_percentage,
            original_percentage: msg.original_percentage,
            parent_percentage: msg.parent_percentage,
            dao_address: msg.dao_address,
            funds_address: msg.funds_address,
        }),
{
    MemeArt {
        ledger: Ledger::new(),
        minting_fees: MintingFees {
            native_denom: msg.native_denom,
            native_decimals: msg.native_decimals,
            token_cap: msg.token_cap,
            base_mint_fee: msg.base_mint_fee,
            burn_percentage: msg.burn_percentage,
            original_percentage: msg.original_percentage,
            parent_percentage: msg.parent_percentage,
            dao_address: msg.dao_address,
            funds_address: msg.funds_address,
        },
        admin: msg.admin_address,
        origin_admins: None,
    }
}

/// Accepts a migration only to the version this code carries.
pub fn migrate(target_version: &String) -> (r: Result<Response, ContractError>)
    ensures
        r is Ok <==> target_version@ == CONTRACT_VERSION@,
        r is Err ==> r->Err_0 == ContractError::Unauthorized,
        r is Ok ==> r->Ok_0.attrs() == seq![("action"@, "migrate"@)] && r->Ok_0.sends@.len() == 0,
{
    let version = CONTRACT_VERSION.to_owned();
    if *target_version != version {
        return Err(ContractError::Unauthorized);
    }
    let mut res = Response::new();
    res.add_attribute("action", "migrate");
    proof {
        assert(res.attrs() =~= seq![("action"@, "migrate"@)]);
    }
    Ok(res)
}

} // verus!
