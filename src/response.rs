use vstd::prelude::*;

verus! {

/// A key/value pair recorded in the outcome of an operation.
pub struct Attribute {
    pub key: String,
    pub value: String,
}

/// An instruction to move `amount` of `denom` to `to_address`.
pub struct BankSend {
    pub to_address: String,
    pub denom: String,
    pub amount: u128,
}

/// A notice to the contract at `contract` that it received token `token_id`
/// from `sender`, with the caller's payload `msg`.
pub struct ReceiveNotice {
    pub contract: String,
    pub sender: String,
    pub token_id: String,
    pub msg: Vec<u8>,
}

/// What an operation hands back to the host: attributes, value transfers and
/// notices to receiving contracts.
pub struct Response {
    pub attributes: Vec<Attribute>,
    pub sends: Vec<BankSend>,
    pub notices: Vec<ReceiveNotice>,
}

pub open spec fn attrs_view(a: Seq<Attribute>) -> Seq<(Seq<char>, Seq<char>)> {
    a.map_values(|x: Attribute| (x.key@, x.value@))
}

/// The transfers as (recipient, amount) pairs.
pub open spec fn sends_view(s: Seq<BankSend>) -> Seq<(Seq<char>, int)> {
    s.map_values(|x: BankSend| (x.to_address@, x.amount as int))
}

pub open spec fn all_in_denom(s: Seq<BankSend>, denom: Seq<char>) -> bool {
    forall|i: int| 0 <= i < s.len() ==> (#[trigger] s[i]).denom@ == denom
}

impl Response {
    pub open spec fn attrs(&self) -> Seq<(Seq<char>, Seq<char>)> {
        attrs_view(self.attributes@)
    }

    pub open spec fn transfers(&self) -> Seq<(Seq<char>, int)> {
        sends_view(self.sends@)
    }

    pub fn new() -> (r: Response)
        ensures
            r.attributes@.len() == 0,
            r.sends@.len() == 0,
            r.notices@.len() == 0,
    {
        Response { attributes: Vec::new(), sends: Vec::new(), notices: Vec::new() }
    }

    pub fn add_attribute(&mut self, key: &str, value: &str)
        ensures
            final(self).attrs() == old(self).attrs().push((key@, value@)),
            final(self).sends == old(self).sends,
            final(self).notices == old(self).notices,
    {
        self.attributes.push(Attribute { key: key.to_owned(), value: value.to_owned() });
        proof {
            assert(attrs_view(self.attributes@) =~= attrs_view(old(self).attributes@).push(
                (key@, value@),
            ));
        }
    }
}

} // verus!
