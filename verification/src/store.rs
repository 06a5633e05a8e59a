use vstd::prelude::*;
use vstd::hash_map::StringHashMap;

use crate::claim::{Claim, ClaimView};

verus! {

/// The durable mapping from claim identifier to [`Claim`]: the sole source
/// of truth for claim existence and state.
///
/// Keys are unique and no deletion operation exists; redeemed claims remain
/// in the store indefinitely as a permanent audit record. Its model is a
/// `Map` from the identifier's characters to the claim's model.
pub struct ClaimStore {
    claims: StringHashMap<Claim>,
}

impl View for ClaimStore {
    type V = Map<Seq<char>, ClaimView>;

    closed spec fn view(&self) -> Map<Seq<char>, ClaimView> {
        self.claims@.map_values(|c: Claim| c@)
    }
}

impl ClaimStore {
    /// An empty store.
    pub fn new() -> (r: Self)
        ensures
            r@ == Map::<Seq<char>, ClaimView>::empty(),
    {
        let r = ClaimStore { claims: StringHashMap::new() };
        proof {
            assert(r@ =~= Map::<Seq<char>, ClaimView>::empty());
        }
        r
    }

    /// Whether a claim is recorded under `id`.
    pub fn contains(&self, id: &String) -> (r: bool)
        ensures
            r == self@.contains_key(id@),
    {
        self.claims.contains_key(id.as_str())
    }

    /// The claim recorded under `id`, or nothing.
    pub fn get(&self, id: &String) -> (r: Option<&Claim>)
        ensures
            match r {
                Some(claim) => self@.contains_key(id@) && claim@ == self@[id@],
                None => !self@.contains_key(id@),
            },
    {
        self.claims.get(id.as_str())
    }

    /// Records `claim` under `id`, replacing whatever was there.
    pub fn put(&mut self, id: String, claim: Claim)
        ensures
            final(self)@ == old(self)@.insert(id@, claim@),
    {
        let ghost inserted = claim@;
        self.claims.insert(id, claim);
        proof {
            assert(self@ =~= old(self)@.insert(id@, inserted));
        }
    }
}

} // verus!
