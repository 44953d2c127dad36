//! Glue between a parsed session and the registry: turning the
//! session's isolation selector into the token the overlay connect will
//! carry, and the isolation-stability law stated over whole sessions.

use crate::fnv::fnv1a;
use crate::registry::{default_token, IsolationRegistry, IsolationToken, DEFAULT_TOKEN_ID};
use crate::socks::IsolationSelector;
use vstd::prelude::*;

verus! {

/// The registry key a selector carries, if any.
pub open spec fn selector_key(sel: IsolationSelector) -> Option<u64> {
    match sel {
        IsolationSelector::Credentials { key } => Option::Some(key),
        IsolationSelector::Domain { key } => Option::Some(key),
        IsolationSelector::SharedDefault => Option::None,
    }
}

/// Resolve a session's isolation selector to a token: keyed selectors
/// go through the registry (stable per key within the registry's
/// lifetime and never the default token); the keyless selector is the
/// shared default and leaves the registry untouched. The registry lock
/// is held only for this map operation, never across I/O.
pub fn select_token(sel: IsolationSelector, reg: &mut IsolationRegistry) -> (t: IsolationToken)
    requires
        old(reg).wf(),
        old(reg).headroom(),
    ensures
        final(reg).wf(),
        final(reg).spec_next_id() <= old(reg).spec_next_id() + 1,
        match selector_key(sel) {
            Option::Some(k) => {
                &&& final(reg)@.contains_key(k)
                &&& final(reg)@[k] == t.id
                &&& t.id != DEFAULT_TOKEN_ID
                &&& (old(reg)@.contains_key(k) ==> t.id == old(reg)@[k] && final(reg)@ == old(
                    reg,
                )@)
            },
            Option::None => t.id == DEFAULT_TOKEN_ID && final(reg)@ == old(reg)@,
        },
{
    match sel {
        IsolationSelector::Credentials { key } => reg.get_or_insert(key),
        IsolationSelector::Domain { key } => reg.get_or_insert(key),
        IsolationSelector::SharedDefault => default_token(),
    }
}

/// Isolation key stability over whole sessions, credentials case: equal
/// `(username, password)` pairs always derive the same key, and within
/// one registry lifetime the same key holds the same token while
/// differing keys never share one.
pub proof fn lemma_isolation_stability(
    reg: IsolationRegistry,
    u1: Seq<u8>,
    p1: Seq<u8>,
    u2: Seq<u8>,
    p2: Seq<u8>,
)
    requires
        reg.wf(),
        reg@.contains_key(fnv1a(u1 + p1)),
        reg@.contains_key(fnv1a(u2 + p2)),
    ensures
        u1 == u2 && p1 == p2 ==> reg@[fnv1a(u1 + p1)] == reg@[fnv1a(u2 + p2)],
        fnv1a(u1 + p1) != fnv1a(u2 + p2) ==> reg@[fnv1a(u1 + p1)] != reg@[fnv1a(u2 + p2)],
{
    reg.lemma_token_stability(fnv1a(u1 + p1), fnv1a(u2 + p2));
}

/// The same law for per-domain isolation: equal destination hosts
/// derive equal keys; differing keys never share a token.
pub proof fn lemma_domain_isolation_stability(reg: IsolationRegistry, h1: Seq<u8>, h2: Seq<u8>)
    requires
        reg.wf(),
        reg@.contains_key(fnv1a(h1)),
        reg@.contains_key(fnv1a(h2)),
    ensures
        h1 == h2 ==> reg@[fnv1a(h1)] == reg@[fnv1a(h2)],
        fnv1a(h1) != fnv1a(h2) ==> reg@[fnv1a(h1)] != reg@[fnv1a(h2)],
{
    reg.lemma_token_stability(fnv1a(h1), fnv1a(h2));
}

} // verus!
