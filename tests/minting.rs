use memeart::config::{InstantiateMsg, MintMsg, UpdateOriginAdminMsg, UpdateOriginImageMsg};
use memeart::contract::{execute_instantiate, MemeArt};
use memeart::error::{ContractError, FundsError};
use memeart::execute::{mint, update_origin_admin, update_origin_image};
use memeart::payment::Coin;
use memeart::query::{get_number_of_owned_tokens, get_parent_id};
use memeart::response::Response;
use memeart::state::Metadata;

fn s(x: &str) -> String {
    x.to_string()
}

fn setup(cap: Option<u64>, fee: Option<u128>, funds: Option<&str>, dao: Option<&str>) -> MemeArt {
    execute_instantiate(InstantiateMsg {
        native_denom: s("uatom"),
        native_decimals: 6,
        token_cap: cap,
        base_mint_fee: fee,
        burn_percentage: Some(0),
        original_percentage: Some(10),
        parent_percentage: Some(20),
        dao_address: dao.map(s),
        funds_address: funds.map(s),
        admin_address: s("admin"),
    })
}

fn uatom(n: u128) -> Vec<Coin> {
    vec![Coin { denom: s("uatom"), amount: n }]
}

fn msg(id: &str, owner: &str, parent: Option<&str>) -> MintMsg {
    let mut ext = Metadata::default();
    ext.parent_token_id = parent.map(s);
    MintMsg { token_id: s(id), owner: s(owner), token_uri: Some(s("ipfs://x")), extension: ext }
}

fn transfers(r: &Response) -> Vec<(String, u128)> {
    r.sends.iter().map(|b| (b.to_address.clone(), b.amount)).collect()
}

#[test]
fn mint_stores_lower_case_and_counts() {
    let mut c = setup(None, None, None, None);
    assert!(mint(&mut c, &s("alice"), msg("Foo", "alice", None), &uatom(1)).is_ok());
    assert_eq!(c.ledger.token_count(), 1);
    assert!(c.ledger.load(&s("foo")).is_ok());
    assert!(c.ledger.load(&s("Foo")).is_err());
}

#[test]
fn same_identifier_twice_is_claimed() {
    let mut c = setup(None, None, None, None);
    assert!(mint(&mut c, &s("alice"), msg("Foo", "alice", None), &uatom(1)).is_ok());
    let r = mint(&mut c, &s("alice"), msg("foo", "alice", None), &uatom(1));
    assert!(matches!(r, Err(ContractError::Claimed)));
    assert_eq!(c.ledger.token_count(), 1);
    let r = mint(&mut c, &s("bob"), msg("FOO", "bob", None), &uatom(1));
    assert!(matches!(r, Err(ContractError::Claimed)));
}

#[test]
fn mint_for_someone_else_is_unauthorized() {
    let mut c = setup(None, None, None, None);
    let r = mint(&mut c, &s("alice"), msg("a", "bob", None), &uatom(1));
    assert!(matches!(r, Err(ContractError::Unauthorized)));
    assert_eq!(c.ledger.token_count(), 0);
}

#[test]
fn cap_of_two_stops_third_mint() {
    let mut c = setup(Some(2), None, None, None);
    assert!(mint(&mut c, &s("u"), msg("a", "u", None), &uatom(1)).is_ok());
    assert!(mint(&mut c, &s("u"), msg("b", "u", None), &uatom(1)).is_ok());
    let r = mint(&mut c, &s("u"), msg("c", "u", None), &uatom(1));
    assert!(matches!(r, Err(ContractError::TokenCapExceeded)));
    assert_eq!(get_number_of_owned_tokens(&c.ledger, &s("u"), 4000000), 2);
    assert_eq!(get_number_of_owned_tokens(&c.ledger, &s("u"), 1), 1);
    // another owner is not held by u's count
    assert!(mint(&mut c, &s("v"), msg("c", "v", None), &uatom(1)).is_ok());
}

#[test]
fn parent_owner_paid_and_rest_to_funds() {
    let mut c = setup(None, Some(100), Some("funds"), None);
    assert!(mint(&mut c, &s("p"), msg("root", "p", None), &uatom(100)).is_ok());
    let r = mint(&mut c, &s("u"), msg("child", "u", Some("root")), &uatom(100)).ok().unwrap();
    assert_eq!(transfers(&r), vec![(s("p"), 20), (s("funds"), 80)]);
    assert!(r.sends.iter().all(|b| b.denom == "uatom"));
}

#[test]
fn parent_owner_paid_and_rest_to_admin_without_funds() {
    let mut c = setup(None, Some(100), None, None);
    assert!(mint(&mut c, &s("p"), msg("root", "p", None), &uatom(100)).is_ok());
    let r = mint(&mut c, &s("u"), msg("child", "u", Some("root")), &uatom(100)).ok().unwrap();
    assert_eq!(transfers(&r), vec![(s("p"), 20), (s("admin"), 80)]);
}

#[test]
fn only_the_base_fee_is_split() {
    let mut c = setup(None, Some(100), Some("funds"), Some("dao"));
    let r = mint(&mut c, &s("u"), msg("a", "u", None), &uatom(150)).ok().unwrap();
    assert_eq!(transfers(&r), vec![(s("dao"), 30), (s("funds"), 70)]);
}

#[test]
fn underpaid_mint_is_refused() {
    let mut c = setup(None, Some(100), None, None);
    let r = mint(&mut c, &s("u"), msg("a", "u", None), &uatom(50));
    assert!(matches!(r, Err(ContractError::InsufficientFunds)));
    assert_eq!(c.ledger.token_count(), 0);
    assert!(c.ledger.load(&s("a")).is_err());
}

#[test]
fn payment_errors() {
    let mut c = setup(None, Some(100), None, None);
    let r = mint(&mut c, &s("u"), msg("a", "u", None), &vec![]);
    assert!(matches!(r, Err(ContractError::Payment(FundsError::NoFunds))));
    let r = mint(&mut c, &s("u"), msg("a", "u", None), &uatom(0));
    assert!(matches!(r, Err(ContractError::Payment(FundsError::NoFunds))));
    let two = vec![
        Coin { denom: s("uatom"), amount: 100 },
        Coin { denom: s("wei"), amount: 100 },
    ];
    let r = mint(&mut c, &s("u"), msg("a", "u", None), &two);
    assert!(matches!(r, Err(ContractError::Payment(FundsError::MultipleDenoms))));
    let wei = vec![Coin { denom: s("wei"), amount: 100 }];
    let r = mint(&mut c, &s("u"), msg("a", "u", None), &wei);
    match r {
        Err(ContractError::Payment(FundsError::MissingDenom(d))) => assert_eq!(d, "uatom"),
        _ => panic!("expected a missing denomination"),
    }
    assert_eq!(c.ledger.token_count(), 0);
}

#[test]
fn free_mint_accepts_any_single_coin() {
    let mut c = setup(None, None, None, None);
    let wei = vec![Coin { denom: s("wei"), amount: 3 }];
    let r = mint(&mut c, &s("u"), msg("a", "u", None), &wei).ok().unwrap();
    assert!(r.sends.is_empty());
}

#[test]
fn missing_parent_is_not_found() {
    let mut c = setup(None, None, None, None);
    let r = mint(&mut c, &s("u"), msg("a", "u", Some("ghost")), &uatom(1));
    assert!(matches!(r, Err(ContractError::NotFound)));
    assert_eq!(c.ledger.token_count(), 0);
}

#[test]
fn root_parent_becomes_original() {
    let mut c = setup(None, None, None, None);
    assert!(mint(&mut c, &s("p"), msg("root", "p", None), &uatom(1)).is_ok());
    assert!(mint(&mut c, &s("u"), msg("child", "u", Some("root")), &uatom(1)).is_ok());
    let t = c.ledger.load(&s("child")).ok().unwrap();
    assert_eq!(t.extension.parent_token_id, Some(s("root")));
    assert_eq!(t.extension.original_token_id, Some(s("root")));
}

#[test]
fn original_is_reused_through_parent() {
    let mut c = setup(None, None, None, None);
    assert!(mint(&mut c, &s("a"), msg("a", "a", None), &uatom(1)).is_ok());
    assert!(mint(&mut c, &s("b"), msg("b", "b", Some("a")), &uatom(1)).is_ok());
    assert!(mint(&mut c, &s("c"), msg("c", "c", Some("b")), &uatom(1)).is_ok());
    let t = c.ledger.load(&s("c")).ok().unwrap();
    assert_eq!(t.extension.parent_token_id, Some(s("b")));
    assert_eq!(t.extension.original_token_id, Some(s("a")));
    assert_eq!(get_parent_id(&c, &s("c")).ok().unwrap().parent_token_id, "b");
}

#[test]
fn empty_or_self_parent_is_normalised() {
    let mut c = setup(None, None, None, None);
    assert!(mint(&mut c, &s("u"), msg("a", "u", Some("")), &uatom(1)).is_ok());
    assert!(mint(&mut c, &s("u"), msg("b", "u", Some("b")), &uatom(1)).is_ok());
    for id in ["a", "b"] {
        let t = c.ledger.load(&s(id)).ok().unwrap();
        assert_eq!(t.extension.parent_token_id, Some(s("")));
        assert_eq!(t.extension.original_token_id, None);
    }
    assert!(mint(&mut c, &s("u"), msg("d", "u", None), &uatom(1)).is_ok());
    assert_eq!(c.ledger.load(&s("d")).ok().unwrap().extension.parent_token_id, None);
}

#[test]
fn original_owner_paid_once_image_is_marked() {
    let mut c = setup(None, Some(100), Some("funds"), Some("dao"));
    assert!(mint(&mut c, &s("a"), msg("a", "a", None), &uatom(100)).is_ok());
    assert!(mint(&mut c, &s("b"), msg("b", "b", Some("a")), &uatom(100)).is_ok());
    let admins = UpdateOriginAdminMsg {
        original_admin_address1: s("x"),
        original_admin_address2: s("y"),
        original_admin_address3: s("z"),
    };
    assert!(update_origin_admin(&mut c, &s("admin"), admins).is_ok());
    let mark = UpdateOriginImageMsg { token_id: s("a"), original_image: Some(true) };
    assert!(update_origin_image(&mut c, &s("y"), mark).is_ok());
    let r = mint(&mut c, &s("c"), msg("c", "c", Some("b")), &uatom(100)).ok().unwrap();
    assert_eq!(transfers(&r), vec![(s("a"), 10), (s("b"), 20), (s("funds"), 70)]);
}
