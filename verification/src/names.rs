//! Best-effort process-name index: the distinct process ids referenced by a
//! snapshot, and the mapping from id to display name built from whatever
//! lookups succeeded. An id with no resolvable name is simply absent.

use vstd::prelude::*;
use crate::model::SocketRecord;

verus! {

/// The mapping described by a list of `(pid, name)` pairs; a later pair for
/// the same id overrides an earlier one.
pub open spec fn pairs_map(s: Seq<(u32, String)>) -> Map<u32, Seq<char>>
    decreases s.len(),
{
    if s.len() == 0 {
        Map::empty()
    } else {
        pairs_map(s.drop_last()).insert(s.last().0, s.last().1@)
    }
}

/// Mapping from process id to display name, built once per invocation from
/// the lookups that succeeded.
pub struct ProcessNameIndex {
    entries: Vec<(u32, String)>,
}

impl View for ProcessNameIndex {
    type V = Map<u32, Seq<char>>;

    closed spec fn view(&self) -> Map<u32, Seq<char>> {
        pairs_map(self.entries@)
    }
}

impl ProcessNameIndex {
    /// Builds the index from the `(pid, name)` pairs whose lookup succeeded.
    pub fn from_pairs(pairs: Vec<(u32, String)>) -> (idx: ProcessNameIndex)
        ensures
            idx@ == pairs_map(pairs@),
    {
        ProcessNameIndex { entries: pairs }
    }

    /// An index that resolves no id at all.
    pub fn empty() -> (idx: ProcessNameIndex)
        ensures
            idx@ == Map::<u32, Seq<char>>::empty(),
    {
        ProcessNameIndex { entries: Vec::new() }
    }

    /// Looks up the entries before position `n`, latest first.
    fn lookup_from(&self, n: usize, pid: u32) -> (r: Option<String>)
        requires
            n <= self.entries@.len(),
        ensures
            match r {
                Some(name) => pairs_map(self.entries@.take(n as int)).contains_key(pid)
                    && name@ == pairs_map(self.entries@.take(n as int))[pid],
                None => !pairs_map(self.entries@.take(n as int)).contains_key(pid),
            },
        decreases n,
    {
        if n == 0 {
            assert(self.entries@.take(0) =~= Seq::<(u32, String)>::empty());
            None
        } else {
            proof {
                assert(self.entries@.take(n as int).drop_last() =~= self.entries@.take(n - 1));
                assert(self.entries@.take(n as int).last() == self.entries@[n - 1]);
            }
            let (p, name) = &self.entries[n - 1];
            if *p == pid {
                Some(name.clone())
            } else {
                self.lookup_from(n - 1, pid)
            }
        }
    }

    /// The name resolved for `pid`, if any.
    pub fn lookup(&self, pid: u32) -> (r: Option<String>)
        ensures
            match r {
                Some(name) => self@.contains_key(pid) && name@ == self@[pid],
                None => !self@.contains_key(pid),
            },
    {
        proof {
            assert(self.entries@.take(self.entries@.len() as int) =~= self.entries@);
        }
        self.lookup_from(self.entries.len(), pid)
    }
}

/// Whether `x` occurs in `v`.
fn contains_u32(v: &Vec<u32>, x: u32) -> (b: bool)
    ensures
        b == v@.contains(x),
{
    let mut i: usize = 0;
    while i < v.len()
        invariant
            i <= v@.len(),
            forall|j: int| 0 <= j < i ==> v@[j] != x,
        decreases v@.len() - i,
    {
        if v[i] == x {
            return true;
        }
        i = i + 1;
    }
    false
}

/// Whether `p` is associated with some record of `s`.
pub open spec fn snapshot_has_pid(s: Seq<SocketRecord>, p: u32) -> bool {
    exists|i: int| 0 <= i < s.len() && s[i].pids@.contains(p)
}

/// Collects the distinct process ids referenced by the snapshot, so that each
/// id is looked up at most once.
pub fn collect_pids(snapshot: &Vec<SocketRecord>) -> (r: Vec<u32>)
    ensures
        r@.no_duplicates(),
        forall|p: u32| r@.contains(p) <==> snapshot_has_pid(snapshot@, p),
{
    let mut r: Vec<u32> = Vec::new();
    let mut i: usize = 0;
    while i < snapshot.len()
        invariant
            i <= snapshot@.len(),
            r@.no_duplicates(),
            forall|p: u32| r@.contains(p) <==> snapshot_has_pid(snapshot@.take(i as int), p),
        decreases snapshot@.len() - i,
    {
        let rec = &snapshot[i];
        let mut j: usize = 0;
        while j < rec.pids.len()
            invariant
                i < snapshot@.len(),
                j <= rec.pids@.len(),
                rec == snapshot@[i as int],
                r@.no_duplicates(),
                forall|p: u32| r@.contains(p) <==> (snapshot_has_pid(snapshot@.take(i as int), p)
                    || rec.pids@.take(j as int).contains(p)),
            decreases rec.pids@.len() - j,
        {
            let p: u32 = rec.pids[j];
            if !contains_u32(&r, p) {
                let ghost r0 = r@;
                r.push(p);
                proof {
                    assert(rec.pids@.take(j + 1)[j as int] == p);
                    assert(rec.pids@.take(j + 1).contains(p));
                }
                assert forall|q: u32| r@.contains(q) implies
                    (snapshot_has_pid(snapshot@.take(i as int), q)
                        || rec.pids@.take(j + 1).contains(q)) by {
                    if q != p {
                        let k = choose|k: int| 0 <= k < r@.len() && r@[k] == q;
                        assert(r0[k] == q);
                        assert(r0.contains(q));
                        if rec.pids@.take(j as int).contains(q) {
                            let m = choose|m: int|
                                0 <= m < j && #[trigger] rec.pids@.take(j as int)[m] == q;
                            assert(rec.pids@.take(j + 1)[m] == q);
                        }
                    }
                }
                assert forall|q: u32| (snapshot_has_pid(snapshot@.take(i as int), q)
                        || rec.pids@.take(j + 1).contains(q)) implies r@.contains(q) by {
                    if q != p {
                        if rec.pids@.take(j + 1).contains(q) {
                            let m = choose|m: int|
                                0 <= m < j + 1 && #[trigger] rec.pids@.take(j + 1)[m] == q;
                            assert(rec.pids@.take(j as int)[m] == q);
                        }
                        assert(r0.contains(q));
                        let k = choose|k: int| 0 <= k < r0.len() && r0[k] == q;
                        assert(r@[k] == q);
                    } else {
                        assert(r@[r@.len() - 1] == p);
                    }
                }
            } else {
                assert(rec.pids@.take(j + 1).contains(p)) by {
                    assert(rec.pids@.take(j + 1)[j as int] == p);
                }
                assert forall|q: u32| rec.pids@.take(j + 1).contains(q) && q != p
                        implies rec.pids@.take(j as int).contains(q) by {
                    let m = choose|m: int|
                        0 <= m < j + 1 && #[trigger] rec.pids@.take(j + 1)[m] == q;
                    assert(rec.pids@.take(j as int)[m] == q);
                }
            }
            j = j + 1;
        }
        proof {
            assert(rec.pids@.take(rec.pids@.len() as int) =~= rec.pids@);
            assert forall|q: u32| (snapshot_has_pid(snapshot@.take(i as int), q)
                    || rec.pids@.contains(q))
                    <==> snapshot_has_pid(snapshot@.take(i + 1), q) by {
                if snapshot_has_pid(snapshot@.take(i as int), q) {
                    let k = choose|k: int|
                        0 <= k < i && snapshot@.take(i as int)[k].pids@.contains(q);
                    assert(snapshot@.take(i + 1)[k].pids@.contains(q));
                }
                if rec.pids@.contains(q) {
                    assert(snapshot@.take(i + 1)[i as int].pids@.contains(q));
                }
                if snapshot_has_pid(snapshot@.take(i + 1), q) {
                    let k = choose|k: int|
                        0 <= k < i + 1 && #[trigger] snapshot@.take(i + 1)[k].pids@.contains(q);
                    if k < i {
                        assert(snapshot@.take(i as int)[k].pids@.contains(q));
                    }
                }
            }
        }
        i = i + 1;
    }
    proof {
        assert(snapshot@.take(snapshot@.len() as int) =~= snapshot@);
    }
    r
}

} // verus!
