use vstd::prelude::*;
use crate::error::ContractError;

verus! {

/// A copy of an optional text.
pub fn copy_text(a: &Option<String>) -> (r: Option<String>)
    ensures
        r == *a,
{
    match a {
        Some(s) => Some(s.clone()),
        None => None,
    }
}

/// A token's extension: descriptive fields its owner may edit, and the
/// lineage fields fixed at mint.
pub struct Metadata {
    pub name: Option<String>,
    pub description: Option<String>,
    pub image: Option<String>,
    pub contract_address: Option<String>,
    pub validator_operator_address: Option<String>,
    pub parent_token_id: Option<String>,
    pub original_token_id: Option<String>,
    pub original_image: Option<bool>,
}

impl Metadata {
    /// Whether every field is unset.
    pub open spec fn is_cleared(&self) -> bool {
        &&& self.name is None
        &&& self.description is None
        &&& self.image is None
        &&& self.contract_address is None
        &&& self.validator_operator_address is None
        &&& self.parent_token_id is None
        &&& self.original_token_id is None
        &&& self.original_image is None
    }

    pub fn copy(&self) -> (r: Metadata)
        ensures
            r == *self,
    {
        Metadata {
            name: copy_text(&self.name),
            description: copy_text(&self.description),
            image: copy_text(&self.image),
            contract_address: copy_text(&self.contract_address),
            validator_operator_address: copy_text(&self.validator_operator_address),
            parent_token_id: copy_text(&self.parent_token_id),
            original_token_id: copy_text(&self.original_token_id),
            original_image: self.original_image,
        }
    }

    pub fn cleared() -> (r: Metadata)
        ensures
            r.is_cleared(),
    {
        Metadata {
            name: None,
            description: None,
            image: None,
            contract_address: None,
            validator_operator_address: None,
            parent_token_id: None,
            original_token_id: None,
            original_image: None,
        }
    }
}

impl Default for Metadata {
    fn default() -> (r: Metadata)
        ensures
            r.is_cleared(),
    {
        Metadata::cleared()
    }
}

/// A token as the ledger stores it.
pub struct TokenInfo {
    pub owner: String,
    pub token_uri: Option<String>,
    pub extension: Metadata,
}

/// A token together with its identifier.
pub struct TokenRecord {
    pub id: String,
    pub info: TokenInfo,
}

/// The token ledger: records with distinct identifiers, and the supply
/// counter.
pub struct Ledger {
    records: Vec<TokenRecord>,
    token_count: u64,
}

/// Whether `s` holds a record for `id`.
pub open spec fn holds(s: Seq<TokenRecord>, id: Seq<char>) -> bool {
    exists|i: int| 0 <= i < s.len() && (#[trigger] s[i]).id@ == id
}

/// How many records of `s` belong to `owner`.
spec fn count_owned(s: Seq<TokenRecord>, owner: Seq<char>) -> nat
    decreases s.len(),
{
    if s.len() == 0 {
        0
    } else {
        count_owned(s.drop_last(), owner) + if s.last().info.owner@ == owner {
            1nat
        } else {
            0nat
        }
    }
}

/// The identifiers of the records of `s` that belong to `owner`.
spec fn ids_owned(s: Seq<TokenRecord>, owner: Seq<char>) -> Set<Seq<char>>
    decreases s.len(),
{
    if s.len() == 0 {
        Set::empty()
    } else if s.last().info.owner@ == owner {
        ids_owned(s.drop_last(), owner).insert(s.last().id@)
    } else {
        ids_owned(s.drop_last(), owner)
    }
}

proof fn lemma_ids_owned(s: Seq<TokenRecord>, owner: Seq<char>)
    requires
        forall|i: int, j: int| 0 <= i < j < s.len() ==> (#[trigger] s[i]).id@ != (#[trigger] s[j]).id@,
    ensures
        ids_owned(s, owner).finite(),
        ids_owned(s, owner).len() == count_owned(s, owner),
        forall|k: Seq<char>| #[trigger] ids_owned(s, owner).contains(k) <==> exists|i: int|
            0 <= i < s.len() && (#[trigger] s[i]).id@ == k && s[i].info.owner@ == owner,
    decreases s.len(),
{
    if s.len() > 0 {
        let t = s.drop_last();
        assert forall|i: int, j: int| 0 <= i < j < t.len() implies (#[trigger] t[i]).id@ != (#[trigger] t[j]).id@ by {
            assert(s[i] == t[i] && s[j] == t[j]);
        }
        lemma_ids_owned(t, owner);
        let last = s.last();
        if last.info.owner@ == owner {
            if ids_owned(t, owner).contains(last.id@) {
                let i = choose|i: int| 0 <= i < t.len() && (#[trigger] t[i]).id@ == last.id@ && t[i].info.owner@ == owner;
                assert(s[i].id@ != s[s.len() - 1].id@);
            }
        }
        assert forall|k: Seq<char>| #[trigger] ids_owned(s, owner).contains(k) <==> exists|i: int|
            0 <= i < s.len() && (#[trigger] s[i]).id@ == k && s[i].info.owner@ == owner by {
            if ids_owned(s, owner).contains(k) {
                if ids_owned(t, owner).contains(k) {
                    let i = choose|i: int| 0 <= i < t.len() && (#[trigger] t[i]).id@ == k && t[i].info.owner@ == owner;
                    assert(s[i] == t[i]);
                } else {
                    assert(s[s.len() - 1].id@ == k);
                }
            }
            if exists|i: int| 0 <= i < s.len() && (#[trigger] s[i]).id@ == k && s[i].info.owner@ == owner {
                let i = choose|i: int| 0 <= i < s.len() && (#[trigger] s[i]).id@ == k && s[i].info.owner@ == owner;
                if i < s.len() - 1 {
                    assert(t[i] == s[i]);
                }
            }
        }
    }
}

pub open spec fn min(a: int, b: int) -> int {
    if a <= b {
        a
    } else {
        b
    }
}

proof fn lemma_count_owned_grows(s: Seq<TokenRecord>, i: int, owner: Seq<char>)
    requires
        0 <= i <= s.len(),
    ensures
        count_owned(s.subrange(0, i), owner) <= count_owned(s, owner),
    decreases s.len(),
{
    if i < s.len() {
        lemma_count_owned_grows(s.drop_last(), i, owner);
        assert(s.drop_last().subrange(0, i) =~= s.subrange(0, i));
    } else {
        assert(s.subrange(0, i) =~= s);
    }
}

proof fn lemma_count_owned_same_owners(s1: Seq<TokenRecord>, s2: Seq<TokenRecord>, owner: Seq<char>)
    requires
        s1.len() == s2.len(),
        forall|i: int| 0 <= i < s1.len() ==> (#[trigger] s1[i]).info.owner@ == s2[i].info.owner@,
    ensures
        count_owned(s1, owner) == count_owned(s2, owner),
    decreases s1.len(),
{
    if s1.len() > 0 {
        lemma_count_owned_same_owners(s1.drop_last(), s2.drop_last(), owner);
    }
}

impl Ledger {
    pub closed spec fn records(&self) -> Seq<TokenRecord> {
        self.records@
    }

    /// The tokens by identifier.
    pub open spec fn view(&self) -> Map<Seq<char>, TokenInfo> {
        Map::new(
            |k: Seq<char>| holds(self.records(), k),
            |k: Seq<char>|
                self.records()[choose|i: int|
                    0 <= i < self.records().len() && (#[trigger] self.records()[i]).id@ == k].info,
        )
    }

    /// The supply counter.
    pub closed spec fn count(&self) -> nat {
        self.token_count as nat
    }

    pub open spec fn wf(&self) -> bool {
        &&& forall|i: int, j: int|
            0 <= i < j < self.records().len() ==> (#[trigger] self.records()[i]).id@
                != (#[trigger] self.records()[j]).id@
        &&& self.count() == self.records().len()
    }

    /// The identifiers of the tokens that `owner` holds.
    pub open spec fn owned_ids(&self, owner: Seq<char>) -> Set<Seq<char>> {
        self@.dom().filter(|k: Seq<char>| self@[k].owner@ == owner)
    }

    /// How many tokens `owner` holds.
    pub open spec fn owned(&self, owner: Seq<char>) -> nat {
        self.owned_ids(owner).len()
    }

    proof fn lemma_owned_is_count(&self, owner: Seq<char>)
        requires
            self.wf(),
        ensures
            self.owned(owner) == count_owned(self.records(), owner),
    {
        lemma_ids_owned(self.records(), owner);
        let f = self.owned_ids(owner);
        let g = ids_owned(self.records(), owner);
        assert forall|k: Seq<char>| #[trigger] f.contains(k) == g.contains(k) by {
            if f.contains(k) {
                let i = choose|i: int| 0 <= i < self.records().len() && (#[trigger] self.records()[i]).id@ == k;
                self.lemma_view_at(i);
            }
            if g.contains(k) {
                let i = choose|i: int|
                    0 <= i < self.records().len() && (#[trigger] self.records()[i]).id@ == k
                        && self.records()[i].info.owner@ == owner;
                self.lemma_view_at(i);
            }
        }
        assert(f =~= g);
    }

    proof fn lemma_view_at(&self, i: int)
        requires
            self.wf(),
            0 <= i < self.records().len(),
        ensures
            self@.contains_key(self.records()[i].id@),
            self@[self.records()[i].id@] == self.records()[i].info,
    {
        let k = self.records()[i].id@;
        assert(holds(self.records(), k));
        let j = choose|j: int| 0 <= j < self.records().len() && (#[trigger] self.records()[j]).id@ == k;
        assert(j == i);
    }

    pub fn new() -> (r: Ledger)
        ensures
            r.wf(),
            r@ == Map::<Seq<char>, TokenInfo>::empty(),
            r.count() == 0,
            forall|o: Seq<char>| #[trigger] r.owned(o) == 0,
    {
        let r = Ledger { records: Vec::new(), token_count: 0 };
        assert(r@ =~= Map::<Seq<char>, TokenInfo>::empty());
        assert forall|o: Seq<char>| #[trigger] r.owned(o) == 0 by {
            r.lemma_owned_is_count(o);
        }
        r
    }

    /// Where the record of `id` stands, if there is one.
    pub fn position(&self, id: &String) -> (r: Option<usize>)
        requires
            self.wf(),
        ensures
            r is Some <==> self@.contains_key(id@),
            r is Some ==> r->0 < self.records().len() && self.records()[r->0 as int].id@ == id@,
    {
        let mut i: usize = 0;
        while i < self.records.len()
            invariant
                i <= self.records@.len(),
                forall|j: int| 0 <= j < i ==> (#[trigger] self.records@[j]).id@ != id@,
            decreases self.records@.len() - i,
        {
            if self.records[i].id == *id {
                return Some(i);
            }
            i = i + 1;
        }
        None
    }

    /// How many records the ledger holds.
    pub fn len(&self) -> (r: usize)
        ensures
            r == self.records().len(),
    {
        self.records.len()
    }

    /// The record at `i`, in the order of minting among those still held.
    pub fn record_at(&self, i: usize) -> (r: &TokenRecord)
        requires
            self.wf(),
            i < self.records().len(),
        ensures
            *r == self.records()[i as int],
            self@.contains_key(r.id@),
            self@[r.id@] == r.info,
    {
        proof {
            self.lemma_view_at(i as int);
        }
        &self.records[i]
    }

    /// The token of the record at `i`.
    pub fn info_at(&self, i: usize) -> (r: &TokenInfo)
        requires
            self.wf(),
            i < self.records().len(),
        ensures
            *r == self@[self.records()[i as int].id@],
    {
        proof {
            self.lemma_view_at(i as int);
        }
        &self.records[i].info
    }

    /// Looks a token up by identifier; `NotFound` when there is none.
    pub fn load(&self, id: &String) -> (r: Result<&TokenInfo, ContractError>)
        requires
            self.wf(),
        ensures
            r is Ok <==> self@.contains_key(id@),
            r is Ok ==> *r->Ok_0 == self@[id@],
            r is Err ==> r->Err_0 == ContractError::NotFound,
    {
        match self.position(id) {
            Some(i) => Ok(self.info_at(i)),
            None => Err(ContractError::NotFound),
        }
    }

    /// The supply counter.
    pub fn token_count(&self) -> (r: u64)
        ensures
            r == self.count(),
    {
        self.token_count
    }

    proof fn lemma_replaced(old_l: &Ledger, new_l: &Ledger, i: int)
        requires
            old_l.wf(),
            0 <= i < old_l.records().len(),
            new_l.records().len() == old_l.records().len(),
            new_l.records()[i].id@ == old_l.records()[i].id@,
            forall|j: int| 0 <= j < old_l.records().len() && j != i ==> new_l.records()[j] == old_l.records()[j],
            new_l.count() == old_l.count(),
        ensures
            new_l.wf(),
            new_l@ == old_l@.insert(old_l.records()[i].id@, new_l.records()[i].info),
    {
        let key = old_l.records()[i].id@;
        assert forall|a: int, b: int|
            0 <= a < b < new_l.records().len() implies (#[trigger] new_l.records()[a]).id@
                != (#[trigger] new_l.records()[b]).id@ by {
            assert(old_l.records()[a].id@ != old_l.records()[b].id@);
        }
        new_l.lemma_view_at(i);
        assert forall|k: Seq<char>| #[trigger] holds(new_l.records(), k) == holds(old_l.records(), k) by {
            if holds(new_l.records(), k) {
                let j = choose|j: int| 0 <= j < new_l.records().len() && (#[trigger] new_l.records()[j]).id@ == k;
                assert(old_l.records()[j].id@ == k);
            }
            if holds(old_l.records(), k) {
                let j = choose|j: int| 0 <= j < old_l.records().len() && (#[trigger] old_l.records()[j]).id@ == k;
                assert(new_l.records()[j].id@ == k);
            }
        }
        assert forall|k: Seq<char>| k != key && #[trigger] holds(old_l.records(), k) implies new_l@[k] == old_l@[k] by {
            let j = choose|j: int| 0 <= j < old_l.records().len() && (#[trigger] old_l.records()[j]).id@ == k;
            old_l.lemma_view_at(j);
            new_l.lemma_view_at(j);
        }
        assert(new_l@ =~= old_l@.insert(key, new_l.records()[i].info));
    }

    /// Replaces the extension of the record at `i`.
    pub fn set_extension(&mut self, i: usize, extension: Metadata)
        requires
            old(self).wf(),
            i < old(self).records().len(),
        ensures
            final(self).wf(),
            final(self).count() == old(self).count(),
            final(self).records()[i as int].id@ == old(self).records()[i as int].id@,
            final(self)@ == old(self)@.insert(
                old(self).records()[i as int].id@,
                TokenInfo { extension, ..old(self)@[old(self).records()[i as int].id@] },
            ),
            forall|o: Seq<char>| #[trigger] final(self).owned(o) == old(self).owned(o),
    {
        proof {
            self.lemma_view_at(i as int);
        }
        let ghost e = extension;
        self.records[i].info.extension = extension;
        proof {
            assert forall|o: Seq<char>| #[trigger] self.owned(o) == old(self).owned(o) by {
                lemma_count_owned_same_owners(self.records(), old(self).records(), o);
                self.lemma_owned_is_count(o);
                old(self).lemma_owned_is_count(o);
            }
            Ledger::lemma_replaced(old(self), self, i as int);
            assert(self.records()[i as int].info == TokenInfo { extension: e, ..old(self)@[old(self).records()[i as int].id@] });
        }
    }

    /// Sets the flag that marks the image of the record at `i` as original.
    pub fn set_original_image(&mut self, i: usize, original_image: Option<bool>)
        requires
            old(self).wf(),
            i < old(self).records().len(),
        ensures
            final(self).wf(),
            final(self).count() == old(self).count(),
            final(self).records()[i as int].id@ == old(self).records()[i as int].id@,
            final(self)@ == old(self)@.insert(
                old(self).records()[i as int].id@,
                TokenInfo {
                    extension: Metadata {
                        original_image,
                        ..old(self)@[old(self).records()[i as int].id@].extension
                    },
                    ..old(self)@[old(self).records()[i as int].id@]
                },
            ),
            forall|o: Seq<char>| #[trigger] final(self).owned(o) == old(self).owned(o),
    {
        proof {
            self.lemma_view_at(i as int);
        }
        self.records[i].info.extension.original_image = original_image;
        proof {
            assert forall|o: Seq<char>| #[trigger] self.owned(o) == old(self).owned(o) by {
                lemma_count_owned_same_owners(self.records(), old(self).records(), o);
                self.lemma_owned_is_count(o);
                old(self).lemma_owned_is_count(o);
            }
            Ledger::lemma_replaced(old(self), self, i as int);
        }
    }

    /// Hands the record at `i` to `owner`.
    pub fn set_owner(&mut self, i: usize, owner: String)
        requires
            old(self).wf(),
            i < old(self).records().len(),
        ensures
            final(self).wf(),
            final(self).count() == old(self).count(),
            final(self).records()[i as int].id@ == old(self).records()[i as int].id@,
            final(self)@ == old(self)@.insert(
                old(self).records()[i as int].id@,
                TokenInfo { owner, ..old(self)@[old(self).records()[i as int].id@] },
            ),
    {
        proof {
            self.lemma_view_at(i as int);
        }
        let ghost o = owner;
        self.records[i].info.owner = owner;
        proof {
            Ledger::lemma_replaced(old(self), self, i as int);
            assert(self.records()[i as int].info == TokenInfo { owner: o, ..old(self)@[old(self).records()[i as int].id@] });
        }
    }

    /// Removes the record at `i` and lowers the supply counter.
    pub fn remove_at(&mut self, i: usize)
        requires
            old(self).wf(),
            i < old(self).records().len(),
        ensures
            final(self).wf(),
            final(self).count() == old(self).count() - 1,
            final(self)@ == old(self)@.remove(old(self).records()[i as int].id@),
    {
        let ghost key = self.records@[i as int].id@;
        let ghost old_records = self.records@;
        let _ = self.records.remove(i);
        self.token_count = self.token_count - 1;
        proof {
            assert(self.records() =~= old_records.remove(i as int));
            assert forall|a: int, b: int|
                0 <= a < b < self.records().len() implies (#[trigger] self.records()[a]).id@
                    != (#[trigger] self.records()[b]).id@ by {
                let oa = if a < i { a } else { a + 1 };
                let ob = if b < i { b } else { b + 1 };
                assert(old_records[oa].id@ != old_records[ob].id@);
            }
            assert forall|k: Seq<char>| #[trigger] holds(self.records(), k) == (holds(old_records, k) && k != key) by {
                if holds(self.records(), k) {
                    let j = choose|j: int| 0 <= j < self.records().len() && (#[trigger] self.records()[j]).id@ == k;
                    let oj = if j < i { j } else { j + 1 };
                    assert(old_records[oj].id@ == k);
                    assert(oj != i);
                }
                if holds(old_records, k) && k != key {
                    let j = choose|j: int| 0 <= j < old_records.len() && (#[trigger] old_records[j]).id@ == k;
                    let nj = if j < i { j } else { j - 1 };
                    assert(self.records()[nj].id@ == k);
                }
            }
            assert forall|k: Seq<char>| k != key && #[trigger] holds(old_records, k) implies self@[k] == old(self)@[k] by {
                let j = choose|j: int| 0 <= j < old_records.len() && (#[trigger] old_records[j]).id@ == k;
                let nj = if j < i { j } else { j - 1 };
                old(self).lemma_view_at(j);
                self.lemma_view_at(nj);
            }
            assert(self@ =~= old(self)@.remove(key));
        }
    }

    /// How many tokens `owner` holds, counting no further than `limit`.
    pub fn owned_up_to(&self, owner: &String, limit: usize) -> (r: usize)
        requires
            self.wf(),
        ensures
            r == min(self.owned(owner@) as int, limit as int),
    {
        let mut n: usize = 0;
        let mut i: usize = 0;
        while i < self.records.len() && n < limit
            invariant
                i <= self.records@.len(),
                n == count_owned(self.records@.subrange(0, i as int), owner@),
                n <= limit,
            decreases self.records@.len() - i,
        {
            proof {
                assert(self.records@.subrange(0, i + 1).drop_last() =~= self.records@.subrange(0, i as int));
            }
            if self.records[i].info.owner == *owner {
                n = n + 1;
            }
            i = i + 1;
        }
        proof {
            self.lemma_owned_is_count(owner@);
            if i == self.records@.len() {
                assert(self.records@.subrange(0, i as int) =~= self.records@);
            } else {
                lemma_count_owned_grows(self.records@, i as int, owner@);
            }
        }
        n
    }

    /// Stores `info` under `id` in one step with the check that `id` is free:
    /// `Claimed` when it is taken, and nothing changes on any error.
    pub fn claim(&mut self, id: String, info: TokenInfo) -> (r: Result<(), ContractError>)
        requires
            old(self).wf(),
        ensures
            final(self).wf(),
            old(self)@.contains_key(id@) ==> r == Err::<(), ContractError>(ContractError::Claimed),
            !old(self)@.contains_key(id@) && old(self).count() >= u64::MAX ==> r
                == Err::<(), ContractError>(ContractError::SupplyOverflow),
            r is Ok <==> !old(self)@.contains_key(id@) && old(self).count() < u64::MAX,
            r is Ok ==> final(self)@ == old(self)@.insert(id@, info) && final(self).count()
                == old(self).count() + 1,
            r is Ok ==> forall|o: Seq<char>| #[trigger]
                final(self).owned(o) == old(self).owned(o) + (if info.owner@ == o {
                    1nat
                } else {
                    0nat
                }),
            r is Err ==> *final(self) == *old(self),
    {
        if self.position(&id).is_some() {
            return Err(ContractError::Claimed);
        }
        if self.token_count == u64::MAX {
            return Err(ContractError::SupplyOverflow);
        }
        let ghost old_records = self.records@;
        let ghost key = id@;
        let ghost v = info;
        self.records.push(TokenRecord { id, info });
        self.token_count = self.token_count + 1;
        proof {
            assert(self.records() =~= old_records.push(TokenRecord { id: self.records@.last().id, info: v }));
            assert(!holds(old_records, key));
            assert forall|i: int, j: int|
                0 <= i < j < self.records().len() implies (#[trigger] self.records()[i]).id@
                    != (#[trigger] self.records()[j]).id@ by {
                if j == old_records.len() {
                    assert(old_records[i] == self.records()[i]);
                }
            }
            assert(self.records().drop_last() =~= old_records);
            self.lemma_view_at(old_records.len() as int);
            assert forall|k: Seq<char>| k != key && #[trigger] holds(old_records, k) implies self@.contains_key(k) && self@[k] == old(self)@[k] by {
                let i = choose|i: int| 0 <= i < old_records.len() && (#[trigger] old_records[i]).id@ == k;
                old(self).lemma_view_at(i);
                self.lemma_view_at(i);
            }
            assert(self@ =~= old(self)@.insert(key, v));
            assert forall|o: Seq<char>| #[trigger] self.owned(o) == old(self).owned(o) + (if v.owner@ == o { 1nat } else { 0nat }) by {
                self.lemma_owned_is_count(o);
                old(self).lemma_owned_is_count(o);
            }
        }
        Ok(())
    }
}

} // verus!
