use vstd::prelude::*;
use crate::error::ContractError;
use crate::state::{Ledger, TokenInfo};

verus! {

/// The original of a lineage through parent `pti`: the parent's recorded
/// original, or the parent itself when it has none.
pub open spec fn original_id_of(tokens: Map<Seq<char>, TokenInfo>, pti: Seq<char>) -> Seq<char> {
    match tokens[pti].extension.original_token_id {
        Some(o) => o@,
        None => pti,
    }
}

/// Whether the parent, and the original it leads to, are both in the ledger.
pub open spec fn lineage_resolvable(tokens: Map<Seq<char>, TokenInfo>, pti: Seq<char>) -> bool {
    tokens.contains_key(pti) && tokens.contains_key(original_id_of(tokens, pti))
}

/// Whether the original's image is marked as original.
pub open spec fn original_image_of(tokens: Map<Seq<char>, TokenInfo>, pti: Seq<char>) -> bool {
    tokens[original_id_of(tokens, pti)].extension.original_image == Some(true)
}

/// How the original of a lineage was found.
pub enum LineageKind {
    /// The parent had no original: it is the original.
    Root,
    /// The parent had an original, which is reused.
    HasOriginal,
}

/// What a parent reference resolves to.
pub struct Lineage {
    pub kind: LineageKind,
    pub parent_owner: String,
    pub original_owner: String,
    pub original_image: bool,
    pub original_token_id: String,
}

/// Resolves the lineage of a new token whose parent is `parent_token_id`,
/// looking one hop past the parent at most.
pub fn resolve_lineage(ledger: &Ledger, parent_token_id: &String) -> (r: Result<
    Lineage,
    ContractError,
>)
    requires
        ledger.wf(),
    ensures
        r is Ok <==> lineage_resolvable(ledger@, parent_token_id@),
        r is Err ==> r->Err_0 == ContractError::NotFound,
        r is Ok ==> {
            let l = r->Ok_0;
            let tokens = ledger@;
            let pti = parent_token_id@;
            &&& l.parent_owner@ == tokens[pti].owner@
            &&& l.original_token_id@ == original_id_of(tokens, pti)
            &&& l.original_owner@ == tokens[original_id_of(tokens, pti)].owner@
            &&& l.original_image == original_image_of(tokens, pti)
            &&& (l.kind is Root <==> tokens[pti].extension.original_token_id is None)
        },
{
    let parent = ledger.load(parent_token_id)?;
    let parent_owner = parent.owner.clone();
    match &parent.extension.original_token_id {
        Some(oti) => {
            let original = ledger.load(oti)?;
            Ok(
                Lineage {
                    kind: LineageKind::HasOriginal,
                    parent_owner,
                    original_owner: original.owner.clone(),
                    original_image: original.extension.original_image == Some(true),
                    original_token_id: oti.clone(),
                },
            )
        },
        None => Ok(
            Lineage {
                kind: LineageKind::Root,
                parent_owner,
                original_owner: parent.owner.clone(),
                original_image: parent.extension.original_image == Some(true),
                original_token_id: parent_token_id.clone(),
            },
        ),
    }
}

} // verus!
