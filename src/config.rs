use vstd::prelude::*;
use crate::state::Metadata;

verus! {

/// The fee schedule of the contract.
pub struct MintingFees {
    /// Fixed at instantiation.
    pub native_denom: String,
    /// Fixed at instantiation.
    pub native_decimals: u32,
    pub token_cap: Option<u64>,
    pub base_mint_fee: Option<u128>,
    pub burn_percentage: Option<u64>,
    pub original_percentage: Option<u64>,
    pub parent_percentage: Option<u64>,
    pub dao_address: Option<String>,
    pub funds_address: Option<String>,
}

/// The three addresses allowed to mark a token's image as original.
pub struct OriginalAdmins {
    pub original_admin_address1: String,
    pub original_admin_address2: String,
    pub original_admin_address3: String,
}

impl OriginalAdmins {
    pub open spec fn admits(&self, who: Seq<char>) -> bool {
        who == self.original_admin_address1@ || who == self.original_admin_address2@ || who
            == self.original_admin_address3@
    }
}

pub struct InstantiateMsg {
    pub native_denom: String,
    pub native_decimals: u32,
    pub token_cap: Option<u64>,
    pub base_mint_fee: Option<u128>,
    pub burn_percentage: Option<u64>,
    pub original_percentage: Option<u64>,
    pub parent_percentage: Option<u64>,
    pub dao_address: Option<String>,
    pub funds_address: Option<String>,
    pub admin_address: String,
}

pub struct UpdateMintingFeesMsg {
    pub token_cap: Option<u64>,
    pub base_mint_fee: Option<u128>,
    pub burn_percentage: Option<u64>,
    pub original_percentage: Option<u64>,
    pub parent_percentage: Option<u64>,
    pub dao_address: Option<String>,
    pub funds_address: Option<String>,
}

pub struct UpdateOriginAdminMsg {
    pub original_admin_address1: String,
    pub original_admin_address2: String,
    pub original_admin_address3: String,
}

pub struct MintMsg {
    pub token_id: String,
    pub owner: String,
    pub token_uri: Option<String>,
    pub extension: Metadata,
}

pub struct UpdateMetadataMsg {
    pub token_id: String,
    pub metadata: Metadata,
}

pub struct UpdateOriginImageMsg {
    pub token_id: String,
    pub original_image: Option<bool>,
}

} // verus!
