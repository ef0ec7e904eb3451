use vstd::prelude::*;
use crate::config::MintMsg;
use crate::contract::MemeArt;
use crate::error::ContractError;
use crate::execute::{lower_of, minted_token, mint_precheck, mint_refusal, wants_lineage};
use crate::payment::Coin;
use crate::state::TokenInfo;

verus! {

/// Once a mint has stored an identifier, a later mint of any identifier with
/// the same lower-case form is refused, and with `Claimed` whenever it gets
/// past the checks that come before the claim.
pub proof fn lemma_second_mint_claimed(
    before: MemeArt,
    after: MemeArt,
    first: MintMsg,
    minted: TokenInfo,
    sender: Seq<char>,
    second: MintMsg,
    funds: Seq<Coin>,
)
    requires
        after.ledger@ == before.ledger@.insert(lower_of(first.token_id@), minted),
        lower_of(second.token_id@) == lower_of(first.token_id@),
    ensures
        mint_refusal(after, sender, second, funds) is Some,
        mint_precheck(after, sender, second, funds) is None ==> mint_refusal(
            after,
            sender,
            second,
            funds,
        ) == Some(ContractError::Claimed),
{
    assert(after.ledger@.contains_key(lower_of(second.token_id@)));
}

/// A token minted under a parent that records an original gets that
/// original, not the parent.
pub proof fn lemma_original_reused(t: TokenInfo, msg: MintMsg, tokens: Map<Seq<char>, TokenInfo>)
    requires
        minted_token(t, msg, tokens),
        wants_lineage(msg.extension, msg.token_id@),
        tokens[msg.extension.parent_token_id->0@].extension.original_token_id is Some,
    ensures
        t.extension.original_token_id is Some,
        t.extension.original_token_id->0@
            == tokens[msg.extension.parent_token_id->0@].extension.original_token_id->0@,
{
}

/// A token minted under a root parent, one with no original, gets the
/// parent as its original.
pub proof fn lemma_root_parent_is_original(
    t: TokenInfo,
    msg: MintMsg,
    tokens: Map<Seq<char>, TokenInfo>,
)
    requires
        minted_token(t, msg, tokens),
        wants_lineage(msg.extension, msg.token_id@),
        tokens[msg.extension.parent_token_id->0@].extension.original_token_id is None,
    ensures
        t.extension.original_token_id is Some,
        t.extension.original_token_id->0@ == msg.extension.parent_token_id->0@,
        t.extension.parent_token_id == msg.extension.parent_token_id,
{
}

} // verus!
