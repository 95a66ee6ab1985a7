//! The session registry: a concurrent mapping from user identity to that
//! user's focus session.
//!
//! The store itself is a `dashmap::DashMap`, chosen for fine-grained, per-key
//! locking so that unrelated users' messages never serialize on one global
//! lock. The map is opaque here; what it holds is named by [`dash_contents`],
//! and each operation the library uses carries a contract over that name.
//! `put` is an unconditional upsert — creating a session for a user that
//! already has one overwrites the old record, last writer wins, never a merge.

use vstd::prelude::*;

use crate::session::FocusSession;

verus! {

#[verifier::external_type_specification]
#[verifier::external_body]
#[verifier::reject_recursive_types(K)]
#[verifier::reject_recursive_types(V)]
#[verifier::reject_recursive_types(S)]
pub struct ExDashMap<K, V, S>(dashmap::DashMap<K, V, S>);

/// The pairs a `DashMap` of sessions holds, as a mathematical map.
pub uninterp spec fn dash_contents(
    m: dashmap::DashMap<u64, FocusSession>,
) -> Map<u64, FocusSession>;

/// A snapshot sequence agrees with a map when it lists each of the map's
/// pairs exactly once and nothing else. The order of the sequence is left
/// open: a registry snapshot promises no particular iteration order.
pub open spec fn snapshot_of(
    m: Map<u64, FocusSession>,
    s: Seq<(u64, FocusSession)>,
) -> bool {
    &&& forall|i: int| 0 <= i < s.len() ==> m.contains_pair(#[trigger] s[i].0, s[i].1)
    &&& forall|k: u64|
        m.contains_key(k) ==> exists|i: int| 0 <= i < s.len() && (#[trigger] s[i]).0 == k
    &&& forall|i: int, j: int|
        0 <= i < j < s.len() ==> (#[trigger] s[i]).0 != (#[trigger] s[j]).0
}

/// The map an empty registry holds: nothing.
pub open spec fn no_sessions() -> Map<u64, FocusSession> {
    Map::empty()
}

/// The shared concurrent store of focus sessions, at most one per owner.
pub struct SessionRegistry {
    inner: dashmap::DashMap<u64, FocusSession>,
}


/// Relies on `dashmap::DashMap::new`: a freshly built map holds nothing.
#[verifier::external_body]
fn dash_new() -> (r: SessionRegistry)
    ensures
        r@ == no_sessions(),
{
    SessionRegistry { inner: dashmap::DashMap::new() }
}

/// Relies on `dashmap::DashMap::insert`: the pair is stored, replacing
/// any pair with the same key; no other pair changes.
#[verifier::external_body]
fn dash_put(q: &mut SessionRegistry, owner: u64, session: FocusSession)
    ensures
        (*final(q))@ == (*old(q))@.insert(owner, session),
{
    q.inner.insert(owner, session);
}

/// Relies on `dashmap::DashMap::get`: a non-blocking, non-mutating read
/// of the value stored under the key, if any.
#[verifier::external_body]
fn dash_get(q: &SessionRegistry, owner: u64) -> (r: Option<FocusSession>)
    ensures
        r == if dash_contents(q.inner).contains_key(owner) {
            Some(dash_contents(q.inner)[owner])
        } else {
            None::<FocusSession>
        },
{
    match q.inner.get(&owner) {
        Some(entry) => Some(*entry.value()),
        None => None,
    }
}

/// Relies on `dashmap::DashMap::remove`: the pair stored under the key,
/// if any, leaves the map and is handed back; no other pair changes.
#[verifier::external_body]
fn dash_remove(q: &mut SessionRegistry, owner: u64) -> (r: Option<FocusSession>)
    ensures
        (*final(q))@ == (*old(q))@.remove(owner),
        r == if dash_contents(old(q).inner).contains_key(owner) {
            Some(dash_contents(old(q).inner)[owner])
        } else {
            None::<FocusSession>
        },
{
    match q.inner.remove(&owner) {
        Some((_, session)) => Some(session),
        None => None,
    }
}

/// Relies on `dashmap::DashMap::iter`: with the map untouched meanwhile,
/// iteration yields each stored pair exactly once, in no promised order.
#[verifier::external_body]
fn dash_snapshot(q: &SessionRegistry) -> (r: Vec<(u64, FocusSession)>)
    ensures
        snapshot_of(dash_contents(q.inner), r@),
{
    let mut out: Vec<(u64, FocusSession)> = Vec::new();
    for entry in q.inner.iter() {
        out.push((*entry.key(), *entry.value()));
    }
    out
}

impl View for SessionRegistry {
    type V = Map<u64, FocusSession>;

    /// What the registry currently holds.
    closed spec fn view(&self) -> Map<u64, FocusSession> {
        dash_contents(self.inner)
    }
}

impl SessionRegistry {
    /// An empty registry.
    pub fn new() -> (r: Self)
        ensures
            r@ == no_sessions(),
    {
        dash_new()
    }

    /// Unconditional upsert: after the call the owner's session is exactly
    /// `session`, any earlier session for that owner is gone, and every other
    /// owner's entry is untouched.
    pub fn put(&mut self, owner: u64, session: FocusSession)
        ensures
            final(self)@ == old(self)@.insert(owner, session),
    {
        dash_put(self, owner, session);
    }

    /// Non-blocking read of the owner's session; does not mutate.
    pub fn get(&self, owner: u64) -> (r: Option<FocusSession>)
        ensures
            r == if self@.contains_key(owner) {
                Some(self@[owner])
            } else {
                None::<FocusSession>
            },
    {
        dash_get(self, owner)
    }

    /// Explicitly drop the owner's session, handing back what was stored.
    /// Enforcement never calls this — expired sessions stay until
    /// overwritten — but a deployment that wants to purge them can.
    pub fn remove(&mut self, owner: u64) -> (r: Option<FocusSession>)
        ensures
            final(self)@ == old(self)@.remove(owner),
            r == if old(self)@.contains_key(owner) {
                Some(old(self)@[owner])
            } else {
                None::<FocusSession>
            },
    {
        dash_remove(self, owner)
    }

    /// Snapshot of all (owner, session) pairs for administrative reporting:
    /// each stored pair appears exactly once; the order is unspecified.
    pub fn list(&self) -> (r: Vec<(u64, FocusSession)>)
        ensures
            snapshot_of(self@, r@),
    {
        dash_snapshot(self)
    }
}

} // verus!
