use vstd::prelude::*;
use crate::config::{
    MintMsg, OriginalAdmins, UpdateMetadataMsg, UpdateMintingFeesMsg,
    UpdateOriginAdminMsg, UpdateOriginImageMsg,
};
use crate::contract::MemeArt;
use crate::error::{ContractError, FundsError};
use crate::fees::{
    get_mint_response, mint_attrs, opt_view, split_configured, split_payouts, split_ready,
};
use crate::lineage::{
    lineage_resolvable, original_id_of, original_image_of, resolve_lineage, Lineage,
};
use crate::payment::{check_payment, is_one_coin, one_coin_error, payment_accepted, Coin};
use crate::query::get_number_of_owned_tokens;
use crate::response::{all_in_denom, ReceiveNotice, Response};
use crate::state::{copy_text, min, Ledger, Metadata, TokenInfo};

verus! {

/// The lower-case form of an identifier, under which the ledger stores it.
pub uninterp spec fn lower_of(s: Seq<char>) -> Seq<char>;

/// Relies on str::to_lowercase: the result depends on the characters alone.
#[verifier::external_body]
fn to_lower(s: &String) -> (r: String)
    ensures
        r@ == lower_of(s@),
{
    s.to_lowercase()
}

/// How far the count of a minter's tokens goes, and the cap when none is
/// configured.
pub const OWNED_SCAN_LIMIT: usize = 4000000;

pub open spec fn cap_of(token_cap: Option<u64>) -> int {
    match token_cap {
        Some(c) => c as int,
        None => OWNED_SCAN_LIMIT as int,
    }
}

/// Whether a mint's extension names a parent other than the token itself.
pub open spec fn wants_lineage(ext: Metadata, token_id: Seq<char>) -> bool {
    ext.parent_token_id is Some && ext.parent_token_id->0@.len() > 0
        && ext.parent_token_id->0@ != token_id
}

/// The first check that a mint fails before it touches the ledger.
pub open spec fn mint_precheck(c: MemeArt, sender: Seq<char>, msg: MintMsg, funds: Seq<Coin>) -> Option<
    ContractError,
> {
    let fees = c.minting_fees;
    if msg.owner@ != sender {
        Some(ContractError::Unauthorized)
    } else if min(c.ledger.owned(sender) as int, OWNED_SCAN_LIMIT as int) >= cap_of(fees.token_cap) {
        Some(ContractError::TokenCapExceeded)
    } else if wants_lineage(msg.extension, msg.token_id@) && !lineage_resolvable(
        c.ledger@,
        msg.extension.parent_token_id->0@,
    ) {
        Some(ContractError::NotFound)
    } else if !is_one_coin(funds) {
        Some(ContractError::Payment(one_coin_error(funds)))
    } else if !payment_accepted(funds, fees.native_denom@, fees.base_mint_fee) {
        Some(ContractError::Payment(FundsError::MissingDenom(fees.native_denom)))
    } else if fees.base_mint_fee is Some && funds[0].amount < fees.base_mint_fee->0 {
        Some(ContractError::InsufficientFunds)
    } else if !split_configured(
        fees.base_mint_fee,
        fees.original_percentage,
        fees.parent_percentage,
    ) {
        Some(ContractError::InvalidPercentages)
    } else {
        None
    }
}

/// The error a mint fails with, if it fails.
pub open spec fn mint_refusal(c: MemeArt, sender: Seq<char>, msg: MintMsg, funds: Seq<Coin>) -> Option<
    ContractError,
> {
    if mint_precheck(c, sender, msg, funds) is Some {
        mint_precheck(c, sender, msg, funds)
    } else if c.ledger@.contains_key(lower_of(msg.token_id@)) {
        Some(ContractError::Claimed)
    } else if c.ledger.count() >= u64::MAX {
        Some(ContractError::SupplyOverflow)
    } else {
        None
    }
}

/// Two errors are the same kind with the same content.
pub open spec fn same_error(a: ContractError, b: ContractError) -> bool {
    match (a, b) {
        (
            ContractError::Payment(FundsError::MissingDenom(x)),
            ContractError::Payment(FundsError::MissingDenom(y)),
        ) => x@ == y@,
        _ => a == b,
    }
}

/// What a mint stores: the payload's owner, URI and descriptive fields, with
/// the lineage fields set by resolution and the original-image flag unset.
pub open spec fn minted_token(t: TokenInfo, msg: MintMsg, tokens: Map<Seq<char>, TokenInfo>) -> bool {
    let ext = msg.extension;
    &&& t.owner@ == msg.owner@
    &&& t.token_uri == msg.token_uri
    &&& t.extension.name == ext.name
    &&& t.extension.description == ext.description
    &&& t.extension.image == ext.image
    &&& t.extension.contract_address == ext.contract_address
    &&& t.extension.validator_operator_address == ext.validator_operator_address
    &&& t.extension.original_image is None
    &&& if wants_lineage(ext, msg.token_id@) {
        &&& t.extension.parent_token_id == ext.parent_token_id
        &&& t.extension.original_token_id is Some
        &&& t.extension.original_token_id->0@ == original_id_of(tokens, ext.parent_token_id->0@)
    } else if ext.parent_token_id is Some {
        &&& t.extension.parent_token_id is Some
        &&& t.extension.parent_token_id->0@ == Seq::<char>::empty()
        &&& t.extension.original_token_id is None
    } else {
        &&& t.extension.parent_token_id is None
        &&& t.extension.original_token_id is None
    }
}

/// The transfers that split the base fee of a mint.
pub open spec fn mint_payouts(c: MemeArt, msg: MintMsg) -> Seq<(Seq<char>, int)> {
    let fees = c.minting_fees;
    let tokens = c.ledger@;
    let pti = msg.extension.parent_token_id->0@;
    let lineage = wants_lineage(msg.extension, msg.token_id@);
    split_payouts(
        fees.base_mint_fee->0 as int,
        fees.original_percentage->0 as int,
        fees.parent_percentage->0 as int,
        lineage && original_image_of(tokens, pti),
        if lineage {
            Some(tokens[original_id_of(tokens, pti)].owner@)
        } else {
            None
        },
        if lineage {
            Some(tokens[pti].owner@)
        } else {
            None
        },
        opt_view(fees.dao_address),
        opt_view(fees.funds_address),
        c.admin@,
    )
}

/// Mints `msg.token_id` (stored in lower case) to its owner, who must be the
/// sender, and splits the configured fee among the lineage's stakeholders.
pub fn mint(c: &mut MemeArt, sender: &String, msg: MintMsg, funds: &Vec<Coin>) -> (r: Result<
    Response,
    ContractError,
>)
    requires
        old(c).wf(),
    ensures
        final(c).wf(),
        r is Err <==> mint_refusal(*old(c), sender@, msg, funds@) is Some,
        r is Err ==> same_error(r->Err_0, mint_refusal(*old(c), sender@, msg, funds@)->0),
        r is Err ==> *final(c) == *old(c),
        r is Ok ==> {
            let key = lower_of(msg.token_id@);
            let res = r->Ok_0;
            &&& final(c).ledger@ == old(c).ledger@.insert(key, final(c).ledger@[key])
            &&& minted_token(final(c).ledger@[key], msg, old(c).ledger@)
            &&& final(c).ledger.count() == old(c).ledger.count() + 1
            &&& forall|o: Seq<char>| #[trigger] final(c).ledger.owned(o) == old(c).ledger.owned(o) + (
                if o == msg.owner@ { 1nat } else { 0nat })
            &&& final(c).minting_fees == old(c).minting_fees
            &&& final(c).admin == old(c).admin
            &&& final(c).origin_admins == old(c).origin_admins
            &&& res.attrs() == mint_attrs(sender@, msg.token_id@)
            &&& res.notices@.len() == 0
            &&& all_in_denom(res.sends@, old(c).minting_fees.native_denom@)
            &&& old(c).minting_fees.base_mint_fee is None ==> res.sends@.len() == 0
            &&& old(c).minting_fees.base_mint_fee is Some ==> res.transfers() == mint_payouts(
                *old(c),
                msg,
            )
        },
{
    if msg.owner != *sender {
        return Err(ContractError::Unauthorized);
    }
    let owned = get_number_of_owned_tokens(&c.ledger, sender, OWNED_SCAN_LIMIT);
    let cap_reached = match c.minting_fees.token_cap {
        Some(tc) => owned as u64 >= tc,
        None => owned >= OWNED_SCAN_LIMIT,
    };
    if cap_reached {
        return Err(ContractError::TokenCapExceeded);
    }
    let mut new_extension = msg.extension;
    let resolved: Option<Lineage> = match &new_extension.parent_token_id {
        Some(pti) => {
            if !pti.as_str().is_empty() && *pti != msg.token_id {
                Some(resolve_lineage(&c.ledger, pti)?)
            } else {
                None
            }
        },
        None => None,
    };
    match &resolved {
        Some(l) => {
            new_extension.original_token_id = Some(l.original_token_id.clone());
        },
        None => {
            if new_extension.parent_token_id.is_some() {
                new_extension.parent_token_id = Some(String::new());
            }
            new_extension.original_token_id = None;
        },
    }
    new_extension.original_image = None;
    let fee = c.minting_fees.base_mint_fee;
    let amount = match check_payment(funds, &c.minting_fees.native_denom, fee) {
        Ok(a) => a,
        Err(e) => return Err(ContractError::Payment(e)),
    };
    if let Some(f) = fee {
        if amount < f {
            return Err(ContractError::InsufficientFunds);
        }
    }
    if !split_ready(fee, c.minting_fees.original_percentage, c.minting_fees.parent_percentage) {
        return Err(ContractError::InvalidPercentages);
    }
    let key = to_lower(&msg.token_id);
    let token = TokenInfo { owner: msg.owner, token_uri: msg.token_uri, extension: new_extension };
    match c.ledger.claim(key, token) {
        Ok(()) => {},
        Err(e) => return Err(e),
    }
    let (parent_address, original_address, original_image) = match resolved {
        Some(l) => (Some(l.parent_owner), Some(l.original_owner), l.original_image),
        None => (None, None, false),
    };
    get_mint_response(
        &c.admin,
        sender,
        parent_address,
        original_address,
        &c.minting_fees.native_denom,
        fee,
        c.minting_fees.parent_percentage,
        c.minting_fees.original_percentage,
        &msg.token_id,
        original_image,
        copy_text(&c.minting_fees.dao_address),
        copy_text(&c.minting_fees.funds_address),
    )
}

/// Replaces the fee schedule but its denomination and decimals; admin only.
pub fn update_minting_fees(c: &mut MemeArt, sender: &String, msg: UpdateMintingFeesMsg) -> (r:
    Result<Response, ContractError>)
    requires
        old(c).wf(),
    ensures
        final(c).wf(),
        r is Ok <==> sender@ == old(c).admin@,
        r is Err ==> r->Err_0 == ContractError::Unauthorized && *final(c) == *old(c),
        r is Ok ==> {
            &&& final(c).ledger == old(c).ledger
            &&& final(c).admin == old(c).admin
            &&& final(c).origin_admins == old(c).origin_admins
            &&& final(c).minting_fees.native_denom == old(c).minting_fees.native_denom
            &&& final(c).minting_fees.native_decimals == old(c).minting_fees.native_decimals
            &&& final(c).minting_fees.token_cap == msg.token_cap
            &&& final(c).minting_fees.base_mint_fee == msg.base_mint_fee
            &&& final(c).minting_fees.burn_percentage == msg.burn_percentage
            &&& final(c).minting_fees.original_percentage == msg.original_percentage
            &&& final(c).minting_fees.parent_percentage == msg.parent_percentage
            &&& final(c).minting_fees.dao_address == msg.dao_address
            &&& final(c).minting_fees.funds_address == msg.funds_address
            &&& r->Ok_0.attrs() == seq![("action"@, "update_contract_minting_fees"@)]
            &&& r->Ok_0.sends@.len() == 0
        },
{
    if c.admin != *sender {
        return Err(ContractError::Unauthorized);
    }
    c.minting_fees.token_cap = msg.token_cap;
    c.minting_fees.base_mint_fee = msg.base_mint_fee;
    c.minting_fees.burn_percentage = msg.burn_percentage;
    c.minting_fees.original_percentage = msg.original_percentage;
    c.minting_fees.parent_percentage = msg.parent_percentage;
    c.minting_fees.dao_address = msg.dao_address;
    c.minting_fees.funds_address = msg.funds_address;
    let mut res = Response::new();
    res.add_attribute("action", "update_contract_minting_fees");
    proof {
        assert(res.attrs() =~= seq![("action"@, "update_contract_minting_fees"@)]);
    }
    Ok(res)
}

/// Hands the admin role to `admin_address`; admin only.
pub fn set_admin_address(c: &mut MemeArt, sender: &String, admin_address: String) -> (r: Result<
    Response,
    ContractError,
>)
    requires
        old(c).wf(),
    ensures
        final(c).wf(),
        r is Ok <==> sender@ == old(c).admin@,
        r is Err ==> r->Err_0 == ContractError::Unauthorized && *final(c) == *old(c),
        r is Ok ==> {
            &&& final(c).admin == admin_address
            &&& final(c).ledger == old(c).ledger
            &&& final(c).minting_fees == old(c).minting_fees
            &&& final(c).origin_admins == old(c).origin_admins
            &&& r->Ok_0.attrs() == seq![
                ("action"@, "update_contract_admin_address"@),
                ("new_admin_address"@, admin_address@),
            ]
        },
{
    if c.admin != *sender {
        return Err(ContractError::Unauthorized);
    }
    let mut res = Response::new();
    res.add_attribute("action", "update_contract_admin_address");
    res.add_attribute("new_admin_address", admin_address.as_str());
    proof {
        assert(res.attrs() =~= seq![
            ("action"@, "update_contract_admin_address"@),
            ("new_admin_address"@, admin_address@),
        ]);
    }
    c.admin = admin_address;
    Ok(res)
}

/// The attributes of an operation on one token by `who`.
pub open spec fn token_attrs(action: Seq<char>, role: Seq<char>, who: Seq<char>, token_id: Seq<char>) -> Seq<
    (Seq<char>, Seq<char>),
> {
    seq![("action"@, action), (role, who), ("token_id"@, token_id)]
}

fn token_response(action: &str, role: &str, who: &String, token_id: &String) -> (r: Response)
    ensures
        r.attrs() == token_attrs(action@, role@, who@, token_id@),
        r.sends@.len() == 0,
        r.notices@.len() == 0,
{
    let mut res = Response::new();
    res.add_attribute("action", action);
    res.add_attribute(role, who.as_str());
    res.add_attribute("token_id", token_id.as_str());
    proof {
        assert(res.attrs() =~= token_attrs(action@, role@, who@, token_id@));
    }
    res
}

/// Replaces a token's extension with `msg.metadata`, keeping its parent;
/// the token's owner only.
pub fn update_metadata(c: &mut MemeArt, sender: &String, msg: UpdateMetadataMsg) -> (r: Result<
    Response,
    ContractError,
>)
    requires
        old(c).wf(),
    ensures
        final(c).wf(),
        !old(c).ledger@.contains_key(msg.token_id@) ==> r is Err && r->Err_0
            == ContractError::NotFound,
        old(c).ledger@.contains_key(msg.token_id@) && old(c).ledger@[msg.token_id@].owner@ != sender@
            ==> r is Err && r->Err_0 == ContractError::Unauthorized,
        r is Ok <==> old(c).ledger@.contains_key(msg.token_id@) && old(c).ledger@[msg.token_id@].owner@
            == sender@,
        r is Err ==> *final(c) == *old(c),
        r is Ok ==> {
            let t = old(c).ledger@[msg.token_id@];
            &&& final(c).ledger@ == old(c).ledger@.insert(
                msg.token_id@,
                TokenInfo {
                    extension: Metadata {
                        parent_token_id: t.extension.parent_token_id,
                        ..msg.metadata
                    },
                    ..t
                },
            )
            &&& final(c).ledger.count() == old(c).ledger.count()
            &&& final(c).minting_fees == old(c).minting_fees
            &&& final(c).admin == old(c).admin
            &&& final(c).origin_admins == old(c).origin_admins
            &&& r->Ok_0.attrs() == token_attrs("update_metadata"@, "owner"@, sender@, msg.token_id@)
            &&& r->Ok_0.sends@.len() == 0
        },
{
    let i = match c.ledger.position(&msg.token_id) {
        Some(i) => i,
        None => return Err(ContractError::NotFound),
    };
    let token = c.ledger.info_at(i);
    if token.owner != *sender {
        return Err(ContractError::Unauthorized);
    }
    let existing_parent_id = copy_text(&token.extension.parent_token_id);
    let mut extension = msg.metadata;
    extension.parent_token_id = existing_parent_id;
    c.ledger.set_extension(i, extension);
    Ok(token_response("update_metadata", "owner", sender, &msg.token_id))
}

/// Names the three origin admins; admin only.
pub fn update_origin_admin(c: &mut MemeArt, sender: &String, msg: UpdateOriginAdminMsg) -> (r:
    Result<Response, ContractError>)
    requires
        old(c).wf(),
    ensures
        final(c).wf(),
        r is Ok <==> sender@ == old(c).admin@,
        r is Err ==> r->Err_0 == ContractError::Unauthorized && *final(c) == *old(c),
        r is Ok ==> {
            &&& final(c).origin_admins == Some(
                OriginalAdmins {
                    original_admin_address1: msg.original_admin_address1,
                    original_admin_address2: msg.original_admin_address2,
                    original_admin_address3: msg.original_admin_address3,
                },
            )
            &&& final(c).ledger == old(c).ledger
            &&& final(c).minting_fees == old(c).minting_fees
            &&& final(c).admin == old(c).admin
            &&& r->Ok_0.attrs() == seq![("action"@, "update_origin_admin"@)]
        },
{
    if c.admin != *sender {
        return Err(ContractError::Unauthorized);
    }
    c.origin_admins = Some(
        OriginalAdmins {
            original_admin_address1: msg.original_admin_address1,
            original_admin_address2: msg.original_admin_address2,
            original_admin_address3: msg.original_admin_address3,
        },
    );
    let mut res = Response::new();
    res.add_attribute("action", "update_origin_admin");
    proof {
        assert(res.attrs() =~= seq![("action"@, "update_origin_admin"@)]);
    }
    Ok(res)
}

/// Sets the original-image flag of a token; origin admins only.
pub fn update_origin_image(c: &mut MemeArt, sender: &String, msg: UpdateOriginImageMsg) -> (r:
    Result<Response, ContractError>)
    requires
        old(c).wf(),
    ensures
        final(c).wf(),
        old(c).origin_admins is None ==> r is Err && r->Err_0 == ContractError::NotFound,
        old(c).origin_admins is Some && !old(c).origin_admins->0.admits(sender@) ==> r is Err
            && r->Err_0 == ContractError::Unauthorized,
        old(c).origin_admins is Some && old(c).origin_admins->0.admits(sender@)
            && !old(c).ledger@.contains_key(msg.token_id@) ==> r is Err && r->Err_0
            == ContractError::NotFound,
        r is Ok <==> old(c).origin_admins is Some && old(c).origin_admins->0.admits(sender@)
            && old(c).ledger@.contains_key(msg.token_id@),
        r is Err ==> *final(c) == *old(c),
        r is Ok ==> {
            let t = old(c).ledger@[msg.token_id@];
            &&& final(c).ledger@ == old(c).ledger@.insert(
                msg.token_id@,
                TokenInfo {
                    extension: Metadata { original_image: msg.original_image, ..t.extension },
                    ..t
                },
            )
            &&& final(c).ledger.count() == old(c).ledger.count()
            &&& final(c).minting_fees == old(c).minting_fees
            &&& final(c).admin == old(c).admin
            &&& final(c).origin_admins == old(c).origin_admins
            &&& r->Ok_0.attrs() == token_attrs("update_metadata"@, "owner"@, sender@, msg.token_id@)
        },
{
    let allowed = match &c.origin_admins {
        None => return Err(ContractError::NotFound),
        Some(admins) => admins.original_admin_address1 == *sender
            || admins.original_admin_address2 == *sender || admins.original_admin_address3
            == *sender,
    };
    if !allowed {
        return Err(ContractError::Unauthorized);
    }
    let i = match c.ledger.position(&msg.token_id) {
        Some(i) => i,
        None => return Err(ContractError::NotFound),
    };
    c.ledger.set_original_image(i, msg.original_image);
    Ok(token_response("update_metadata", "owner", sender, &msg.token_id))
}

/// Resets a token's extension to the cleared one; nothing happens when the
/// token is absent.
pub fn clear_metadata(ledger: &mut Ledger, token_id: &String)
    requires
        old(ledger).wf(),
    ensures
        final(ledger).wf(),
        final(ledger).count() == old(ledger).count(),
        forall|o: Seq<char>| #[trigger] final(ledger).owned(o) == old(ledger).owned(o),
        !old(ledger)@.contains_key(token_id@) ==> *final(ledger) == *old(ledger),
        old(ledger)@.contains_key(token_id@) ==> {
            let t = final(ledger)@[token_id@];
            &&& final(ledger)@ == old(ledger)@.insert(token_id@, t)
            &&& t.extension.is_cleared()
            &&& t.owner == old(ledger)@[token_id@].owner
            &&& t.token_uri == old(ledger)@[token_id@].token_uri
        },
{
    match ledger.position(token_id) {
        Some(i) => ledger.set_extension(i, Metadata::cleared()),
        None => {},
    }
}

/// Whether `sender` may move or burn `t`.
pub open spec fn can_send(t: TokenInfo, sender: Seq<char>) -> bool {
    t.owner@ == sender
}

/// The outcome of a custody change of `token_id` to `recipient`: the
/// extension cleared, the owner replaced, all else kept.
pub open spec fn handed_over(
    old_c: MemeArt,
    new_c: MemeArt,
    token_id: Seq<char>,
    recipient: Seq<char>,
) -> bool {
    let t = new_c.ledger@[token_id];
    &&& new_c.ledger@ == old_c.ledger@.insert(token_id, t)
    &&& t.extension.is_cleared()
    &&& t.owner@ == recipient
    &&& t.token_uri == old_c.ledger@[token_id].token_uri
    &&& new_c.ledger.count() == old_c.ledger.count()
    &&& new_c.minting_fees == old_c.minting_fees
    &&& new_c.admin == old_c.admin
    &&& new_c.origin_admins == old_c.origin_admins
}

/// Checks that `sender` may move `token_id`, clears the token's extension, then
/// hands the token to `recipient`.
fn hand_over(c: &mut MemeArt, sender: &String, recipient: &String, token_id: &String) -> (r: Result<
    (),
    ContractError,
>)
    requires
        old(c).wf(),
    ensures
        final(c).wf(),
        r is Ok <==> old(c).ledger@.contains_key(token_id@) && can_send(
            old(c).ledger@[token_id@],
            sender@,
        ),
        !old(c).ledger@.contains_key(token_id@) ==> r is Err && r->Err_0
            == ContractError::NotFound,
        r is Err ==> *final(c) == *old(c),
        r is Err && old(c).ledger@.contains_key(token_id@) ==> r->Err_0
            == ContractError::Unauthorized,
        r is Ok ==> handed_over(*old(c), *final(c), token_id@, recipient@),
{
    let i = match c.ledger.position(token_id) {
        Some(i) => i,
        None => return Err(ContractError::NotFound),
    };
    if c.ledger.info_at(i).owner != *sender {
        return Err(ContractError::Unauthorized);
    }
    c.ledger.set_extension(i, Metadata::cleared());
    c.ledger.set_owner(i, recipient.clone());
    assert(c.ledger@ =~= old(c).ledger@.insert(token_id@, c.ledger@[token_id@]));
    Ok(())
}

/// Moves a token to `recipient`, clearing its extension first.
pub fn transfer_nft(c: &mut MemeArt, sender: &String, recipient: String, token_id: String) -> (r:
    Result<Response, ContractError>)
    requires
        old(c).wf(),
    ensures
        final(c).wf(),
        r is Ok <==> old(c).ledger@.contains_key(token_id@) && can_send(
            old(c).ledger@[token_id@],
            sender@,
        ),
        !old(c).ledger@.contains_key(token_id@) ==> r is Err && r->Err_0
            == ContractError::NotFound,
        r is Err && old(c).ledger@.contains_key(token_id@) ==> r->Err_0
            == ContractError::Unauthorized,
        r is Err ==> *final(c) == *old(c),
        r is Ok ==> handed_over(*old(c), *final(c), token_id@, recipient@),
        r is Ok ==> r->Ok_0.attrs() == seq![
            ("action"@, "transfer_nft"@),
            ("sender"@, sender@),
            ("recipient"@, recipient@),
            ("token_id"@, token_id@),
        ] && r->Ok_0.sends@.len() == 0 && r->Ok_0.notices@.len() == 0,
{
    match hand_over(c, sender, &recipient, &token_id) {
        Ok(()) => {},
        Err(e) => return Err(e),
    }
    let mut res = Response::new();
    res.add_attribute("action", "transfer_nft");
    res.add_attribute("sender", sender.as_str());
    res.add_attribute("recipient", recipient.as_str());
    res.add_attribute("token_id", token_id.as_str());
    proof {
        assert(res.attrs() =~= seq![
            ("action"@, "transfer_nft"@),
            ("sender"@, sender@),
            ("recipient"@, recipient@),
            ("token_id"@, token_id@),
        ]);
    }
    Ok(res)
}

/// Moves a token to the contract `receiving_contract`, clearing its
/// extension first, and notifies that contract with `msg`.
pub fn send_nft(
    c: &mut MemeArt,
    sender: &String,
    receiving_contract: String,
    token_id: String,
    msg: Vec<u8>,
) -> (r: Result<Response, ContractError>)
    requires
        old(c).wf(),
    ensures
        final(c).wf(),
        r is Ok <==> old(c).ledger@.contains_key(token_id@) && can_send(
            old(c).ledger@[token_id@],
            sender@,
        ),
        !old(c).ledger@.contains_key(token_id@) ==> r is Err && r->Err_0
            == ContractError::NotFound,
        r is Err && old(c).ledger@.contains_key(token_id@) ==> r->Err_0
            == ContractError::Unauthorized,
        r is Err ==> *final(c) == *old(c),
        r is Ok ==> handed_over(*old(c), *final(c), token_id@, receiving_contract@),
        r is Ok ==> {
            let res = r->Ok_0;
            &&& res.attrs() == seq![
                ("action"@, "send_nft"@),
                ("sender"@, sender@),
                ("recipient"@, receiving_contract@),
                ("token_id"@, token_id@),
            ]
            &&& res.sends@.len() == 0
            &&& res.notices@.len() == 1
            &&& res.notices@[0].contract@ == receiving_contract@
            &&& res.notices@[0].sender@ == sender@
            &&& res.notices@[0].token_id@ == token_id@
            &&& res.notices@[0].msg@ == msg@
        },
{
    match hand_over(c, sender, &receiving_contract, &token_id) {
        Ok(()) => {},
        Err(e) => return Err(e),
    }
    let mut res = Response::new();
    res.add_attribute("action", "send_nft");
    res.add_attribute("sender", sender.as_str());
    res.add_attribute("recipient", receiving_contract.as_str());
    res.add_attribute("token_id", token_id.as_str());
    proof {
        assert(res.attrs() =~= seq![
            ("action"@, "send_nft"@),
            ("sender"@, sender@),
            ("recipient"@, receiving_contract@),
            ("token_id"@, token_id@),
        ]);
    }
    res.notices.push(
        ReceiveNotice { contract: receiving_contract, sender: sender.clone(), token_id, msg },
    );
    Ok(res)
}

/// Removes a token from the ledger.
pub fn burn(c: &mut MemeArt, sender: &String, token_id: String) -> (r: Result<
    Response,
    ContractError,
>)
    requires
        old(c).wf(),
    ensures
        final(c).wf(),
        r is Ok <==> old(c).ledger@.contains_key(token_id@) && can_send(
            old(c).ledger@[token_id@],
            sender@,
        ),
        !old(c).ledger@.contains_key(token_id@) ==> r is Err && r->Err_0
            == ContractError::NotFound,
        r is Err && old(c).ledger@.contains_key(token_id@) ==> r->Err_0
            == ContractError::Unauthorized,
        r is Err ==> *final(c) == *old(c),
        r is Ok ==> {
            &&& final(c).ledger@ == old(c).ledger@.remove(token_id@)
            &&& final(c).ledger.count() == old(c).ledger.count() - 1
            &&& final(c).minting_fees == old(c).minting_fees
            &&& final(c).admin == old(c).admin
            &&& final(c).origin_admins == old(c).origin_admins
            &&& r->Ok_0.attrs() == token_attrs("burn"@, "sender"@, sender@, token_id@)
        },
{
    let i = match c.ledger.position(&token_id) {
        Some(i) => i,
        None => return Err(ContractError::NotFound),
    };
    if c.ledger.info_at(i).owner != *sender {
        return Err(ContractError::Unauthorized);
    }
    c.ledger.remove_at(i);
    Ok(token_response("burn", "sender", sender, &token_id))
}

} // verus!
