use memeart::config::{
    InstantiateMsg, MintMsg, UpdateMetadataMsg, UpdateMintingFeesMsg, UpdateOriginAdminMsg,
    UpdateOriginImageMsg,
};
use memeart::contract::{execute_instantiate, migrate, MemeArt};
use memeart::error::ContractError;
use memeart::execute::{
    burn, clear_metadata, mint, send_nft, set_admin_address, transfer_nft, update_metadata,
    update_minting_fees, update_origin_admin, update_origin_image,
};
use memeart::payment::Coin;
use memeart::query::{
    address_of, contract_info, get_parent_id, get_parent_nft_info, is_contract, original_admin,
};
use memeart::state::Metadata;

fn s(x: &str) -> String {
    x.to_string()
}

fn setup() -> MemeArt {
    execute_instantiate(InstantiateMsg {
        native_denom: s("uatom"),
        native_decimals: 6,
        token_cap: None,
        base_mint_fee: None,
        burn_percentage: Some(5),
        original_percentage: Some(10),
        parent_percentage: Some(20),
        dao_address: None,
        funds_address: None,
        admin_address: s("admin"),
    })
}

fn described(parent: Option<&str>) -> Metadata {
    let mut ext = Metadata::default();
    ext.name = Some(s("meme"));
    ext.description = Some(s("a meme"));
    ext.contract_address = Some(s("contract1"));
    ext.validator_operator_address = Some(s("valoper1"));
    ext.parent_token_id = parent.map(s);
    ext
}

fn mint_to(c: &mut MemeArt, id: &str, owner: &str, parent: Option<&str>) {
    let m = MintMsg {
        token_id: s(id),
        owner: s(owner),
        token_uri: Some(s("ipfs://x")),
        extension: described(parent),
    };
    let coin = vec![Coin { denom: s("uatom"), amount: 1 }];
    assert!(mint(c, &s(owner), m, &coin).is_ok());
}

fn fees_msg(cap: u64) -> UpdateMintingFeesMsg {
    UpdateMintingFeesMsg {
        token_cap: Some(cap),
        base_mint_fee: Some(7),
        burn_percentage: None,
        original_percentage: Some(1),
        parent_percentage: Some(2),
        dao_address: Some(s("dao")),
        funds_address: None,
    }
}

#[test]
fn transfer_clears_extension_and_moves_owner() {
    let mut c = setup();
    mint_to(&mut c, "a", "alice", None);
    mint_to(&mut c, "b", "alice", Some("a"));
    let r = transfer_nft(&mut c, &s("alice"), s("bob"), s("b")).ok().unwrap();
    let t = c.ledger.load(&s("b")).ok().unwrap();
    assert_eq!(t.owner, "bob");
    assert_eq!(t.extension.name, None);
    assert_eq!(t.extension.parent_token_id, None);
    assert_eq!(t.extension.original_token_id, None);
    assert_eq!(t.token_uri, Some(s("ipfs://x")));
    assert_eq!(r.attributes[0].value, "transfer_nft");
    assert_eq!(c.ledger.token_count(), 2);
}

#[test]
fn transfer_by_stranger_is_refused() {
    let mut c = setup();
    mint_to(&mut c, "a", "alice", None);
    let r = transfer_nft(&mut c, &s("mallory"), s("mallory"), s("a"));
    assert!(matches!(r, Err(ContractError::Unauthorized)));
    assert_eq!(c.ledger.load(&s("a")).ok().unwrap().owner, "alice");
    assert_eq!(c.ledger.load(&s("a")).ok().unwrap().extension.name, Some(s("meme")));
    let r = transfer_nft(&mut c, &s("alice"), s("bob"), s("nope"));
    assert!(matches!(r, Err(ContractError::NotFound)));
}

#[test]
fn send_clears_extension_and_notifies() {
    let mut c = setup();
    mint_to(&mut c, "a", "alice", None);
    let r = send_nft(&mut c, &s("alice"), s("market"), s("a"), vec![1, 2]).ok().unwrap();
    let t = c.ledger.load(&s("a")).ok().unwrap();
    assert_eq!(t.owner, "market");
    assert_eq!(t.extension.description, None);
    assert_eq!(r.notices.len(), 1);
    assert_eq!(r.notices[0].contract, "market");
    assert_eq!(r.notices[0].sender, "alice");
    assert_eq!(r.notices[0].token_id, "a");
    assert_eq!(r.notices[0].msg, vec![1, 2]);
}

#[test]
fn clearing_an_absent_token_does_nothing() {
    let mut c = setup();
    mint_to(&mut c, "a", "alice", None);
    clear_metadata(&mut c.ledger, &s("zzz"));
    assert_eq!(c.ledger.load(&s("a")).ok().unwrap().extension.name, Some(s("meme")));
    clear_metadata(&mut c.ledger, &s("a"));
    assert_eq!(c.ledger.load(&s("a")).ok().unwrap().extension.name, None);
}

#[test]
fn owner_edit_keeps_parent() {
    let mut c = setup();
    mint_to(&mut c, "a", "alice", None);
    mint_to(&mut c, "b", "bob", Some("a"));
    let mut new_meta = Metadata::default();
    new_meta.name = Some(s("renamed"));
    new_meta.parent_token_id = Some(s("other"));
    let m = UpdateMetadataMsg { token_id: s("b"), metadata: new_meta };
    assert!(update_metadata(&mut c, &s("bob"), m).is_ok());
    let t = c.ledger.load(&s("b")).ok().unwrap();
    assert_eq!(t.extension.name, Some(s("renamed")));
    assert_eq!(t.extension.parent_token_id, Some(s("a")));
    assert_eq!(t.extension.original_token_id, None);
}

#[test]
fn stranger_edit_is_unauthorized_and_changes_nothing() {
    let mut c = setup();
    mint_to(&mut c, "a", "alice", None);
    let mut new_meta = Metadata::default();
    new_meta.name = Some(s("hacked"));
    let m = UpdateMetadataMsg { token_id: s("a"), metadata: new_meta };
    let r = update_metadata(&mut c, &s("mallory"), m);
    assert!(matches!(r, Err(ContractError::Unauthorized)));
    assert_eq!(c.ledger.load(&s("a")).ok().unwrap().extension.name, Some(s("meme")));
    let m = UpdateMetadataMsg { token_id: s("nope"), metadata: Metadata::default() };
    assert!(matches!(update_metadata(&mut c, &s("alice"), m), Err(ContractError::NotFound)));
}

#[test]
fn stranger_fee_update_is_unauthorized_and_changes_nothing() {
    let mut c = setup();
    let r = update_minting_fees(&mut c, &s("mallory"), fees_msg(3));
    assert!(matches!(r, Err(ContractError::Unauthorized)));
    let info = contract_info(&c);
    assert_eq!(info.token_cap, None);
    assert_eq!(info.base_mint_fee, None);
    assert_eq!(info.parent_percentage, Some(20));
}

#[test]
fn admin_fee_update_keeps_denomination() {
    let mut c = setup();
    assert!(update_minting_fees(&mut c, &s("admin"), fees_msg(3)).is_ok());
    let info = contract_info(&c);
    assert_eq!(info.native_denom, "uatom");
    assert_eq!(info.native_decimals, 6);
    assert_eq!(info.token_cap, Some(3));
    assert_eq!(info.base_mint_fee, Some(7));
    assert_eq!(info.burn_percentage, None);
    assert_eq!(info.dao_address, Some(s("dao")));
    assert_eq!(info.contract_name, "crates.io:memeart");
}

#[test]
fn admin_rotation() {
    let mut c = setup();
    assert!(matches!(
        set_admin_address(&mut c, &s("mallory"), s("mallory")),
        Err(ContractError::Unauthorized)
    ));
    assert!(set_admin_address(&mut c, &s("admin"), s("admin2")).is_ok());
    assert!(matches!(
        update_minting_fees(&mut c, &s("admin"), fees_msg(1)),
        Err(ContractError::Unauthorized)
    ));
    assert!(update_minting_fees(&mut c, &s("admin2"), fees_msg(1)).is_ok());
    assert!(set_admin_address(&mut c, &s("admin2"), s("admin3")).is_ok());
    assert_eq!(c.admin, "admin3");
}

#[test]
fn origin_image_needs_an_origin_admin() {
    let mut c = setup();
    mint_to(&mut c, "a", "alice", None);
    let mark = |v| UpdateOriginImageMsg { token_id: s("a"), original_image: v };
    assert!(matches!(update_origin_image(&mut c, &s("x"), mark(Some(true))), Err(ContractError::NotFound)));
    assert!(original_admin(&c).is_err());
    let admins = UpdateOriginAdminMsg {
        original_admin_address1: s("x"),
        original_admin_address2: s("y"),
        original_admin_address3: s("z"),
    };
    assert!(matches!(
        update_origin_admin(&mut c, &s("alice"), admins),
        Err(ContractError::Unauthorized)
    ));
    let admins = UpdateOriginAdminMsg {
        original_admin_address1: s("x"),
        original_admin_address2: s("y"),
        original_admin_address3: s("z"),
    };
    assert!(update_origin_admin(&mut c, &s("admin"), admins).is_ok());
    assert_eq!(original_admin(&c).ok().unwrap().original_admin_address3, "z");
    assert!(matches!(
        update_origin_image(&mut c, &s("alice"), mark(Some(true))),
        Err(ContractError::Unauthorized)
    ));
    assert!(update_origin_image(&mut c, &s("z"), mark(Some(true))).is_ok());
    let t = c.ledger.load(&s("a")).ok().unwrap();
    assert_eq!(t.extension.original_image, Some(true));
    assert_eq!(t.extension.name, Some(s("meme")));
    let other = UpdateOriginImageMsg { token_id: s("nope"), original_image: None };
    assert!(matches!(update_origin_image(&mut c, &s("x"), other), Err(ContractError::NotFound)));
}

#[test]
fn burn_removes_token() {
    let mut c = setup();
    mint_to(&mut c, "a", "alice", None);
    assert!(matches!(burn(&mut c, &s("bob"), s("a")), Err(ContractError::Unauthorized)));
    assert!(burn(&mut c, &s("alice"), s("a")).is_ok());
    assert_eq!(c.ledger.token_count(), 0);
    assert!(matches!(burn(&mut c, &s("alice"), s("a")), Err(ContractError::NotFound)));
    mint_to(&mut c, "a", "bob", None);
}

#[test]
fn queries_follow_the_ledger() {
    let mut c = setup();
    mint_to(&mut c, "a", "alice", None);
    mint_to(&mut c, "b", "bob", Some("a"));
    let a = address_of(&c, &s("b")).ok().unwrap();
    assert_eq!(a.owner, "bob");
    assert_eq!(a.contract_address, Some(s("contract1")));
    assert_eq!(a.validator_address, Some(s("valoper1")));
    assert_eq!(is_contract(&c, &s("b")).ok().unwrap().contract_address, "contract1");
    assert_eq!(get_parent_id(&c, &s("b")).ok().unwrap().parent_token_id, "a");
    assert!(matches!(get_parent_id(&c, &s("a")), Err(ContractError::NotFound)));
    let p = get_parent_nft_info(&c, &s("b")).ok().unwrap();
    assert_eq!(p.token_uri, Some(s("ipfs://x")));
    assert_eq!(p.extension.name, Some(s("meme")));
    assert!(matches!(burn(&mut c, &s("alice"), s("a")), Ok(_)));
    assert!(matches!(get_parent_id(&c, &s("b")), Err(ContractError::NotFound)));
    clear_metadata(&mut c.ledger, &s("b"));
    assert!(matches!(is_contract(&c, &s("b")), Err(ContractError::NotFound)));
}

#[test]
fn migration_needs_current_version() {
    assert!(migrate(&s("0.1.0")).is_ok());
    assert!(matches!(migrate(&s("9.9.9")), Err(ContractError::Unauthorized)));
}
