//! Registry laws, stated over the mathematical contents that the registry
//! operations' contracts speak of, and proved once and for all.

use vstd::prelude::*;

use crate::registry::snapshot_of;
use crate::session::FocusSession;

verus! {

/// After `put(u, s)` the registry holds exactly `s` for `u`, and a later
/// `put` for a different owner leaves that entry untouched: a `get(u)`
/// keeps answering `s` until `u` itself is written again.
pub proof fn lemma_put_then_get(
    m: Map<u64, FocusSession>,
    u: u64,
    s: FocusSession,
    u2: u64,
    s2: FocusSession,
)
    requires
        u2 != u,
    ensures
        m.insert(u, s).contains_key(u),
        m.insert(u, s)[u] == s,
        m.insert(u, s).insert(u2, s2).contains_key(u),
        m.insert(u, s).insert(u2, s2)[u] == s,
{
}

/// Two writes for the same owner never merge: the second one wins outright,
/// exactly as if the first had never happened.
pub proof fn lemma_last_writer_wins(
    m: Map<u64, FocusSession>,
    u: u64,
    s1: FocusSession,
    s2: FocusSession,
)
    ensures
        m.insert(u, s1).insert(u, s2) =~= m.insert(u, s2),
{
}

/// While no session exists, a snapshot of the registry is empty — an
/// administrative listing of an empty registry reports nothing, without
/// error.
pub proof fn lemma_empty_snapshot(s: Seq<(u64, FocusSession)>)
    requires
        snapshot_of(Map::empty(), s),
    ensures
        s =~= Seq::empty(),
{
    if s.len() > 0 {
        assert(Map::<u64, FocusSession>::empty().contains_pair(s[0].0, s[0].1));
    }
}

proof fn lemma_snapshot_carries(
    m: Map<u64, FocusSession>,
    s1: Seq<(u64, FocusSession)>,
    s2: Seq<(u64, FocusSession)>,
    p: (u64, FocusSession),
)
    requires
        snapshot_of(m, s1),
        snapshot_of(m, s2),
        s1.contains(p),
    ensures
        s2.contains(p),
{
    let i = choose|i: int| 0 <= i < s1.len() && s1[i] == p;
    assert(m.contains_pair(s1[i].0, s1[i].1));
    assert(m.contains_key(p.0));
    let j = choose|j: int| 0 <= j < s2.len() && s2[j].0 == p.0;
    assert(m.contains_pair(s2[j].0, s2[j].1));
    assert(s2[j] == p);
}

/// Two snapshots of the same registry contents, taken with no write in
/// between, list the same set of (owner, session) pairs: `list` is
/// idempotent up to its unspecified order.
pub proof fn lemma_snapshot_idempotent(
    m: Map<u64, FocusSession>,
    s1: Seq<(u64, FocusSession)>,
    s2: Seq<(u64, FocusSession)>,
)
    requires
        snapshot_of(m, s1),
        snapshot_of(m, s2),
    ensures
        forall|p: (u64, FocusSession)| s1.contains(p) <==> s2.contains(p),
{
    assert forall|p: (u64, FocusSession)| s1.contains(p) implies s2.contains(p) by {
        lemma_snapshot_carries(m, s1, s2, p);
    }
    assert forall|p: (u64, FocusSession)| s2.contains(p) implies s1.contains(p) by {
        lemma_snapshot_carries(m, s2, s1, p);
    }
}

} // verus!
