//! Free-text notes, stored under per-user, per-topic buckets.
//!
//! Mathematically the store is a set of (user, topic, note) triples; a
//! topic's bucket is the set of notes filed under that user and topic.
//! Filing a note that is already present changes nothing — buckets are
//! sets, not lists.

use vstd::prelude::*;

verus! {

struct NoteEntry {
    user: u64,
    topic: String,
    note: String,
}

/// The store of all notes, for all users and topics.
pub struct NoteStore {
    entries: Vec<NoteEntry>,
}

impl View for NoteStore {
    type V = Set<(u64, Seq<char>, Seq<char>)>;

    /// The set of (user, topic, note) triples on file.
    closed spec fn view(&self) -> Set<(u64, Seq<char>, Seq<char>)> {
        Set::new(
            |p: (u64, Seq<char>, Seq<char>)|
                exists|i: int| 0 <= i < self.entries@.len() && self.trip_at(i) == p,
        )
    }
}

impl NoteStore {
    /// The triple stored at position `i`.
    closed spec fn trip_at(&self, i: int) -> (u64, Seq<char>, Seq<char>) {
        (self.entries@[i].user, self.entries@[i].topic@, self.entries@[i].note@)
    }

    /// No triple is stored twice.
    pub closed spec fn wf(&self) -> bool {
        forall|i: int, j: int|
            0 <= i < j < self.entries@.len() ==> self.trip_at(i) != self.trip_at(j)
    }

    /// An empty store.
    pub fn new() -> (r: Self)
        ensures
            r@ =~= Set::<(u64, Seq<char>, Seq<char>)>::empty(),
            r.wf(),
    {
        let r = NoteStore { entries: Vec::new() };
        proof {
            assert forall|p: (u64, Seq<char>, Seq<char>)| !r@.contains(p) by {}
        }
        r
    }

    /// File `note` under `user`'s `topic` bucket. Filing a note that is
    /// already there leaves the store exactly as it was.
    pub fn create(&mut self, user: u64, topic: String, note: String)
        requires
            old(self).wf(),
        ensures
            final(self).wf(),
            final(self)@ =~= old(self)@.insert((user, topic@, note@)),
    {
        let ghost t = (user, topic@, note@);
        let n = self.entries.len();
        let mut i: usize = 0;
        let mut present = false;
        while i < n
            invariant
                i <= n,
                n == self.entries@.len(),
                t == (user, topic@, note@),
                present == exists|j: int| 0 <= j < i && (#[trigger] self.trip_at(j)) == t,
            decreases n - i,
        {
            if self.entries[i].user == user && self.entries[i].topic == topic
                && self.entries[i].note == note {
                proof {
                    assert(self.trip_at(i as int) == t);
                }
                present = true;
            }
            proof {
                if !present {
                    assert forall|j: int| 0 <= j < i + 1 implies #[trigger] self.trip_at(j) != t by {
                        if j < i {
                            assert(self.trip_at(j) != t);
                        }
                    }
                }
            }
            i = i + 1;
        }
        if present {
            proof {
                let j = choose|j: int| 0 <= j < n && (#[trigger] self.trip_at(j)) == t;
                assert(self@.contains(t));
                assert(self@ =~= old(self)@.insert(t));
            }
        } else {
            let ghost pre = *self;
            self.entries.push(NoteEntry { user, topic, note });
            proof {
                assert forall|p: (u64, Seq<char>, Seq<char>)|
                    self@.contains(p) == old(self)@.insert(t).contains(p) by {
                    if self@.contains(p) {
                        let k = choose|k: int|
                            0 <= k < self.entries@.len() && self.trip_at(k) == p;
                        if k < pre.entries@.len() {
                            assert(pre.trip_at(k) == p);
                        } else {
                            assert(p == t);
                        }
                    }
                    if old(self)@.insert(t).contains(p) {
                        if p == t {
                            assert(self.trip_at(n as int) == t);
                        } else {
                            let k = choose|k: int|
                                0 <= k < pre.entries@.len() && pre.trip_at(k) == p;
                            assert(self.trip_at(k) == p);
                        }
                    }
                }
                assert forall|a: int, b: int|
                    0 <= a < b < self.entries@.len() implies self.trip_at(a)
                    != self.trip_at(b) by {
                    if b < n {
                        assert(pre.trip_at(a) != pre.trip_at(b));
                        assert(self.trip_at(a) == pre.trip_at(a));
                        assert(self.trip_at(b) == pre.trip_at(b));
                    } else {
                        assert(self.trip_at(a) == pre.trip_at(a));
                        assert(pre.trip_at(a) != t);
                        assert(self.trip_at(b) == t);
                    }
                }
            }
        }
    }

    /// Does any note at all exist for `user`?
    pub fn has_user(&self, user: u64) -> (r: bool)
        ensures
            r == exists|t: Seq<char>, n: Seq<char>| self@.contains((user, t, n)),
    {
        let count = self.entries.len();
        let mut i: usize = 0;
        while i < count
            invariant
                i <= count,
                count == self.entries@.len(),
                forall|j: int| 0 <= j < i ==> (#[trigger] self.trip_at(j)).0 != user,
            decreases count - i,
        {
            if self.entries[i].user == user {
                proof {
                    let t = self.trip_at(i as int);
                    assert(self@.contains(t));
                }
                return true;
            }
            i = i + 1;
        }
        proof {
            if exists|t: Seq<char>, n: Seq<char>| self@.contains((user, t, n)) {
                let (t, n) = choose|t: Seq<char>, n: Seq<char>| self@.contains((user, t, n));
                let k = choose|k: int|
                    0 <= k < self.entries@.len() && self.trip_at(k) == (user, t, n);
                assert((self.trip_at(k)).0 != user);
            }
        }
        false
    }

    /// Every note filed under `user`'s `topic` bucket, each exactly once,
    /// in no promised order.
    pub fn list(&self, user: u64, topic: &String) -> (r: Vec<String>)
        requires
            self.wf(),
        ensures
            forall|k: int| 0 <= k < r@.len() ==> self@.contains((user, topic@, (#[trigger] r@[k])@)),
            forall|n: Seq<char>|
                self@.contains((user, topic@, n)) ==> exists|k: int| 0 <= k < r@.len() && (#[trigger] r@[k])@ == n,
            forall|k1: int, k2: int| 0 <= k1 < k2 < r@.len() ==> (#[trigger] r@[k1])@ != (#[trigger] r@[k2])@,
    {
        let count = self.entries.len();
        let mut out: Vec<String> = Vec::new();
        let mut i: usize = 0;
        while i < count
            invariant
                i <= count,
                count == self.entries@.len(),
                self.wf(),
                forall|k: int| 0 <= k < out@.len() ==> exists|j: int|
                    0 <= j < i && (#[trigger] self.trip_at(j)) == (user, topic@, (#[trigger] out@[k])@),
                forall|j: int|
                    0 <= j < i && (#[trigger] self.trip_at(j)).0 == user && self.trip_at(j).1
                        == topic@ ==> exists|k: int| 0 <= k < out@.len() && (#[trigger] out@[k])@ == self.trip_at(j).2,
                forall|k1: int, k2: int|
                    0 <= k1 < k2 < out@.len() ==> (#[trigger] out@[k1])@ != (#[trigger] out@[k2])@,
            decreases count - i,
        {
            if self.entries[i].user == user && self.entries[i].topic == *topic {
                let ghost pre = out@;
                out.push(self.entries[i].note.clone());
                proof {
                    let last = out@.len() - 1;
                    assert(self.trip_at(i as int) == (user, topic@, out@[last]@));
                    assert forall|k: int| 0 <= k < out@.len() implies exists|j: int|
                        0 <= j < i + 1 && (#[trigger] self.trip_at(j)) == (
                            user,
                            topic@,
                            (#[trigger] out@[k])@,
                        ) by {
                        if k < last {
                            assert(out@[k] == pre[k]);
                            let j0 = choose|j: int|
                                0 <= j < i && (#[trigger] self.trip_at(j)) == (
                                    user,
                                    topic@,
                                    (pre[k])@,
                                );
                            assert(self.trip_at(j0) == (user, topic@, (out@[k])@));
                        } else {
                            assert(self.trip_at(i as int) == (user, topic@, (out@[k])@));
                        }
                    }
                    assert forall|j: int|
                        0 <= j < i + 1 && (#[trigger] self.trip_at(j)).0 == user && self.trip_at(
                            j,
                        ).1 == topic@ implies exists|k: int|
                        0 <= k < out@.len() && (#[trigger] out@[k])@ == self.trip_at(j).2 by {
                        if j < i {
                            let k0 = choose|k: int|
                                0 <= k < pre.len() && (#[trigger] pre[k])@ == self.trip_at(j).2;
                            assert(out@[k0] == pre[k0]);
                            assert(out@[k0]@ == self.trip_at(j).2);
                        } else {
                            assert(out@[last]@ == self.trip_at(j).2);
                        }
                    }
                    assert forall|k1: int, k2: int|
                        0 <= k1 < k2 < out@.len() implies (#[trigger] out@[k1])@ != (
                        #[trigger] out@[k2])@ by {
                        if k2 == last {
                            assert(out@[k1] == pre[k1]);
                            let j1 = choose|j: int|
                                0 <= j < i && (#[trigger] self.trip_at(j)) == (
                                    user,
                                    topic@,
                                    (pre[k1])@,
                                );
                            assert(self.trip_at(j1) != self.trip_at(i as int));
                        }
                    }
                }
            } else {
                proof {
                    assert forall|j: int|
                        0 <= j < i + 1 && (#[trigger] self.trip_at(j)).0 == user && self.trip_at(
                            j,
                        ).1 == topic@ implies exists|k: int|
                        0 <= k < out@.len() && (#[trigger] out@[k])@ == self.trip_at(j).2 by {
                        assert(j < i);
                    }
                }
            }
            i = i + 1;
        }
        proof {
            assert forall|n: Seq<char>| self@.contains((user, topic@, n)) implies exists|k: int|
                0 <= k < out@.len() && (#[trigger] out@[k])@ == n by {
                let j = choose|j: int|
                    0 <= j < self.entries@.len() && self.trip_at(j) == (user, topic@, n);
                assert((self.trip_at(j)).0 == user && self.trip_at(j).1 == topic@);
            }
            assert forall|k: int| 0 <= k < out@.len() implies self@.contains(
                (user, topic@, (#[trigger] out@[k])@),
            ) by {
                let j = choose|j: int|
                    0 <= j < count && (#[trigger] self.trip_at(j)) == (user, topic@, (out@[k])@);
            }
        }
        out
    }
}

} // verus!
