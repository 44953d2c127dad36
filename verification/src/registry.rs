//! The isolation registry: a bounded map from isolation key (a 64-bit
//! hash of credentials or of a destination host) to a long-lived
//! isolation token. Distinct keys always hold distinct tokens, the size
//! never exceeds `MAX_ISOLATION_ENTRIES`, and when an insert finds the
//! registry full the whole map is cleared first. Clearing only forgets
//! the mapping: sessions keep the token copies they already hold.

use std::collections::HashMap;
use vstd::prelude::*;

verus! {

broadcast use vstd::std_specs::hash::group_hash_axioms;

pub const MAX_ISOLATION_ENTRIES: usize = 1024;

/// The token id reserved for the shared default circuit; the registry
/// never issues it.
pub const DEFAULT_TOKEN_ID: u64 = 0;

/// An opaque identifier attached to an overlay connect request; streams
/// carrying different tokens are kept on disjoint circuits.
#[derive(Clone, Copy, Debug, PartialEq, Eq, Structural)]
pub struct IsolationToken {
    pub id: u64,
}

/// The token for traffic that neither carries credentials nor is
/// isolated by destination.
pub fn default_token() -> (t: IsolationToken)
    ensures
        t.id == DEFAULT_TOKEN_ID,
{
    IsolationToken { id: DEFAULT_TOKEN_ID }
}

pub struct IsolationRegistry {
    map: HashMap<u64, u64>,
    next_id: u64,
}

impl IsolationRegistry {
    /// The mapping from isolation key to token id.
    pub closed spec fn view(&self) -> Map<u64, u64> {
        self.map@
    }

    pub closed spec fn spec_next_id(&self) -> u64 {
        self.next_id
    }

    /// Well-formed: bounded, all tokens issued (nonzero and below the
    /// issuance counter), and distinct keys hold distinct tokens.
    pub open spec fn wf(&self) -> bool {
        &&& self@.len() <= MAX_ISOLATION_ENTRIES
        &&& self@.dom().finite()
        &&& 0 < self.spec_next_id()
        &&& forall|k: u64| #[trigger] self@.contains_key(k) ==> 0 < self@[k] < self.spec_next_id()
        &&& forall|k1: u64, k2: u64|
            self@.contains_key(k1) && self@.contains_key(k2) && k1 != k2 ==> self@[k1] != self@[k2]
    }

    /// Whether the issuance counter can still mint a fresh token without
    /// forgetting the current mapping.
    pub open spec fn headroom(&self) -> bool {
        self.spec_next_id() < u64::MAX
    }

    pub fn new() -> (r: Self)
        ensures
            r.wf(),
            r@ == Map::<u64, u64>::empty(),
            r.spec_next_id() == 1,
            r.headroom(),
    {
        IsolationRegistry { map: HashMap::new(), next_id: 1 }
    }

    pub fn len(&self) -> (n: usize)
        requires
            self.wf(),
        ensures
            n == self@.len(),
    {
        self.map.len()
    }

    /// Whether the issuance counter can mint another token; callers
    /// renew the registry on the (physically unreachable) exhaustion.
    pub fn has_headroom(&self) -> (b: bool)
        ensures
            b == self.headroom(),
    {
        self.next_id < u64::MAX
    }

    /// Return the token for `key`, creating and remembering a fresh one
    /// if the key is new. If the registry is full at insert time, the
    /// whole map is cleared first.
    pub fn get_or_insert(&mut self, key: u64) -> (t: IsolationToken)
        requires
            old(self).wf(),
            old(self).headroom(),
        ensures
            final(self).wf(),
            final(self).spec_next_id() <= old(self).spec_next_id() + 1,
            t.id != DEFAULT_TOKEN_ID,
            final(self)@.contains_key(key),
            final(self)@[key] == t.id,
            old(self)@.contains_key(key) ==> t.id == old(self)@[key] && final(self)@ == old(self)@
                && final(self).spec_next_id() == old(self).spec_next_id(),
            !old(self)@.contains_key(key) && old(self)@.len() < MAX_ISOLATION_ENTRIES ==> {
                &&& final(self)@ == old(self)@.insert(key, t.id)
                &&& forall|k: u64| #[trigger]
                    old(self)@.contains_key(k) ==> old(self)@[k] != t.id
            },
            !old(self)@.contains_key(key) && old(self)@.len() >= MAX_ISOLATION_ENTRIES
                ==> final(self)@ == Map::<u64, u64>::empty().insert(key, t.id),
    {
        match self.map.get(&key) {
            Some(id) => IsolationToken { id: *id },
            None => {
                if self.map.len() >= MAX_ISOLATION_ENTRIES {
                    self.map.clear();
                }
                let id = self.next_id;
                self.next_id = id + 1;
                let ghost pre = self.map@;
                self.map.insert(key, id);
                proof {
                    vstd::set::axiom_set_insert_len(pre.dom(), key);
                    assert(self.map@.dom() =~= pre.dom().insert(key));
                }
                IsolationToken { id }
            },
        }
    }

    /// The registry bound: a well-formed registry never holds more than
    /// `MAX_ISOLATION_ENTRIES` mappings, at any observation point.
    pub proof fn lemma_registry_bound(&self)
        requires
            self.wf(),
        ensures
            self@.len() <= MAX_ISOLATION_ENTRIES,
    {
    }

    /// Isolation key stability: within one registry lifetime, two keys
    /// map to the same token exactly when they are the same key.
    pub proof fn lemma_token_stability(&self, k1: u64, k2: u64)
        requires
            self.wf(),
            self@.contains_key(k1),
            self@.contains_key(k2),
        ensures
            self@[k1] == self@[k2] <==> k1 == k2,
    {
    }

    /// No registry token ever aliases the shared default token.
    pub proof fn lemma_no_default_alias(&self, k: u64)
        requires
            self.wf(),
            self@.contains_key(k),
        ensures
            self@[k] != DEFAULT_TOKEN_ID,
    {
    }
}

} // verus!
