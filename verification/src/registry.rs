//! The authoritative ledger: one table keyed by name holding each lease
//! record, one table keyed by granting owner holding blanket operator grants,
//! and the global configuration singleton.  Contracts speak of the tables
//! through `spec_has` / `rec` and `ops_of`.

use crate::state::{distinct_spenders, Name, Operator, OperatorEntry, State};
use vstd::prelude::*;

verus! {

/// The whole persisted state of the registry.
pub struct Registry {
    /// The global configuration singleton.
    pub state: State,
    /// One lease record per registered name; ids are unique.
    pub names: Vec<Name>,
    /// Blanket operator grants, one entry per granting owner; grantors are
    /// unique.
    pub operators: Vec<OperatorEntry>,
}

impl Registry {
    /// Well-formedness: the lease table is keyed by `id` and the operator
    /// directory by `grantor`, with no duplicate keys; and no record holds
    /// two approvals for the same delegate.
    pub open spec fn wf(self) -> bool {
        &&& forall|i: int, j: int|
            0 <= i < j < self.names@.len() ==> self.names@[i].id@ != self.names@[j].id@
        &&& forall|i: int, j: int|
            0 <= i < j < self.operators@.len() ==> self.operators@[i].grantor@
                != self.operators@[j].grantor@
        &&& forall|i: int|
            0 <= i < self.names@.len() ==> distinct_spenders(#[trigger] self.names@[i].approvals@)
    }

    /// Whether a lease record exists under key `k` (expired or not).
    pub open spec fn spec_has(self, k: Seq<char>) -> bool {
        exists|i: int| 0 <= i < self.names@.len() && self.names@[i].id@ == k
    }

    /// The position of the record keyed `k`; meaningful only when
    /// `spec_has(k)`.
    pub open spec fn index_of(self, k: Seq<char>) -> int {
        choose|i: int| 0 <= i < self.names@.len() && self.names@[i].id@ == k
    }

    /// The lease record keyed `k`; meaningful only when `spec_has(k)`.
    pub open spec fn rec(self, k: Seq<char>) -> Name {
        self.names@[self.index_of(k)]
    }

    /// Whether the operator directory holds an entry under grantor `o`.
    pub open spec fn spec_has_ops(self, o: Seq<char>) -> bool {
        exists|i: int| 0 <= i < self.operators@.len() && self.operators@[i].grantor@ == o
    }

    /// The position of the entry of grantor `o`; meaningful only when
    /// `spec_has_ops(o)`.
    pub open spec fn ops_index(self, o: Seq<char>) -> int {
        choose|i: int| 0 <= i < self.operators@.len() && self.operators@[i].grantor@ == o
    }

    /// All blanket grants stored under grantor `o`; empty where no entry
    /// exists.
    pub open spec fn ops_of(self, o: Seq<char>) -> Seq<Operator> {
        if self.spec_has_ops(o) {
            self.operators@[self.ops_index(o)].grants@
        } else {
            Seq::<Operator>::empty()
        }
    }

    /// A name is available for fresh registration iff no record exists for
    /// it, or the existing record's expiry has passed.
    pub open spec fn spec_available(self, k: Seq<char>, now: u64) -> bool {
        !self.spec_has(k) || self.rec(k).expires <= now
    }

    /// A record is visible to name-scoped queries iff it exists and its
    /// expiry has not passed — exactly the complement of availability.
    pub open spec fn spec_visible(self, k: Seq<char>, now: u64) -> bool {
        self.spec_has(k) && self.rec(k).expires > now
    }

    /// The record seen at position `i` is the one the table holds under its
    /// own id.
    pub proof fn lemma_rec_at(self, i: int)
        requires
            self.wf(),
            0 <= i < self.names@.len(),
        ensures
            self.spec_has(self.names@[i].id@),
            self.index_of(self.names@[i].id@) == i,
            self.rec(self.names@[i].id@) == self.names@[i],
    {
        let k = self.names@[i].id@;
        assert(self.spec_has(k));
        let j = self.index_of(k);
        assert(0 <= j < self.names@.len() && self.names@[j].id@ == k);
        if i < j {
            assert(self.names@[i].id@ != self.names@[j].id@);
        } else if j < i {
            assert(self.names@[j].id@ != self.names@[i].id@);
        }
    }

    /// The entry seen at position `i` of the operator directory is the one
    /// held under its own grantor.
    pub proof fn lemma_ops_at(self, i: int)
        requires
            self.wf(),
            0 <= i < self.operators@.len(),
        ensures
            self.spec_has_ops(self.operators@[i].grantor@),
            self.ops_index(self.operators@[i].grantor@) == i,
            self.ops_of(self.operators@[i].grantor@) == self.operators@[i].grants@,
    {
        let o = self.operators@[i].grantor@;
        assert(self.spec_has_ops(o));
        let j = self.ops_index(o);
        assert(0 <= j < self.operators@.len() && self.operators@[j].grantor@ == o);
        if i < j {
            assert(self.operators@[i].grantor@ != self.operators@[j].grantor@);
        } else if j < i {
            assert(self.operators@[j].grantor@ != self.operators@[i].grantor@);
        }
    }

    /// Overwriting the record at position `i` with one of the same id leaves
    /// every other key untouched.
    pub proof fn lemma_names_update(pre: Registry, post: Registry, i: int, r: Name)
        requires
            pre.wf(),
            0 <= i < pre.names@.len(),
            r.id@ == pre.names@[i].id@,
            distinct_spenders(r.approvals@),
            post.names@ == pre.names@.update(i, r),
            post.operators@ == pre.operators@,
        ensures
            post.wf(),
            post.spec_has(r.id@),
            post.rec(r.id@) == r,
            forall|k: Seq<char>|
                k != r.id@ ==> (post.spec_has(k) <==> pre.spec_has(k)),
            forall|k: Seq<char>|
                k != r.id@ && pre.spec_has(k) ==> post.rec(k) == pre.rec(k),
            forall|o: Seq<char>| post.ops_of(o) == pre.ops_of(o),
    {
        assert forall|a: int, b: int|
            0 <= a < b < post.names@.len() implies post.names@[a].id@ != post.names@[b].id@ by {
            assert(pre.names@[a].id@ != pre.names@[b].id@);
        }
        post.lemma_rec_at(i);
        assert forall|k: Seq<char>| k != r.id@ implies (post.spec_has(k) <==> pre.spec_has(
            k,
        )) by {
            if pre.spec_has(k) {
                let j = pre.index_of(k);
                assert(post.names@[j].id@ == k);
            }
            if post.spec_has(k) {
                let j = post.index_of(k);
                assert(pre.names@[j].id@ == k);
            }
        }
        assert forall|k: Seq<char>| k != r.id@ && pre.spec_has(k) implies post.rec(k)
            == pre.rec(k) by {
            let j = pre.index_of(k);
            pre.lemma_rec_at(j);
            assert(post.names@[j].id@ == k);
            post.lemma_rec_at(j);
        }
        assert forall|o: Seq<char>| post.ops_of(o) == pre.ops_of(o) by {
            assert(post.spec_has_ops(o) <==> pre.spec_has_ops(o));
        }
    }

    /// Appending a record under a fresh id adds that key and leaves every
    /// other key untouched.
    pub proof fn lemma_names_push(pre: Registry, post: Registry, r: Name)
        requires
            pre.wf(),
            !pre.spec_has(r.id@),
            distinct_spenders(r.approvals@),
            post.names@ == pre.names@.push(r),
            post.operators@ == pre.operators@,
        ensures
            post.wf(),
            post.spec_has(r.id@),
            post.rec(r.id@) == r,
            forall|k: Seq<char>|
                k != r.id@ ==> (post.spec_has(k) <==> pre.spec_has(k)),
            forall|k: Seq<char>|
                k != r.id@ && pre.spec_has(k) ==> post.rec(k) == pre.rec(k),
            forall|o: Seq<char>| post.ops_of(o) == pre.ops_of(o),
    {
        let n = pre.names@.len() as int;
        assert forall|a: int, b: int|
            0 <= a < b < post.names@.len() implies post.names@[a].id@ != post.names@[b].id@ by {
            if b < n {
                assert(pre.names@[a].id@ != pre.names@[b].id@);
            } else {
                assert(post.names@[b] == r);
                if pre.names@[a].id@ == r.id@ {
                    assert(pre.spec_has(r.id@));
                }
            }
        }
        post.lemma_rec_at(n);
        assert forall|k: Seq<char>| k != r.id@ implies (post.spec_has(k) <==> pre.spec_has(
            k,
        )) by {
            if pre.spec_has(k) {
                let j = pre.index_of(k);
                assert(post.names@[j].id@ == k);
            }
            if post.spec_has(k) {
                let j = post.index_of(k);
                assert(j < n);
                assert(pre.names@[j].id@ == k);
            }
        }
        assert forall|k: Seq<char>| k != r.id@ && pre.spec_has(k) implies post.rec(k)
            == pre.rec(k) by {
            let j = pre.index_of(k);
            pre.lemma_rec_at(j);
            assert(post.names@[j].id@ == k);
            post.lemma_rec_at(j);
        }
        assert forall|o: Seq<char>| post.ops_of(o) == pre.ops_of(o) by {
            assert(post.spec_has_ops(o) <==> pre.spec_has_ops(o));
        }
    }

    /// Overwriting the grants at position `i` of the operator directory,
    /// keeping the grantor, leaves every other grantor and the lease table
    /// untouched.
    pub proof fn lemma_ops_update(pre: Registry, post: Registry, i: int, e: OperatorEntry)
        requires
            pre.wf(),
            0 <= i < pre.operators@.len(),
            e.grantor@ == pre.operators@[i].grantor@,
            post.operators@ == pre.operators@.update(i, e),
            post.names@ == pre.names@,
        ensures
            post.wf(),
            post.ops_of(e.grantor@) == e.grants@,
            forall|o: Seq<char>| o != e.grantor@ ==> post.ops_of(o) == pre.ops_of(o),
            forall|k: Seq<char>| post.spec_has(k) <==> pre.spec_has(k),
            forall|k: Seq<char>| pre.spec_has(k) ==> post.rec(k) == pre.rec(k),
    {
        assert forall|a: int, b: int|
            0 <= a < b < post.operators@.len() implies post.operators@[a].grantor@
            != post.operators@[b].grantor@ by {
            assert(pre.operators@[a].grantor@ != pre.operators@[b].grantor@);
        }
        post.lemma_ops_at(i);
        assert forall|o: Seq<char>| o != e.grantor@ implies post.ops_of(o) == pre.ops_of(o) by {
            if pre.spec_has_ops(o) {
                let j = pre.ops_index(o);
                pre.lemma_ops_at(j);
                assert(post.operators@[j].grantor@ == o);
                post.lemma_ops_at(j);
            } else {
                if post.spec_has_ops(o) {
                    let j = post.ops_index(o);
                    assert(pre.operators@[j].grantor@ == o);
                }
            }
        }
    }

    /// Appending a directory entry under a fresh grantor adds that grantor
    /// and leaves every other grantor and the lease table untouched.
    pub proof fn lemma_ops_push(pre: Registry, post: Registry, e: OperatorEntry)
        requires
            pre.wf(),
            !pre.spec_has_ops(e.grantor@),
            post.operators@ == pre.operators@.push(e),
            post.names@ == pre.names@,
        ensures
            post.wf(),
            post.ops_of(e.grantor@) == e.grants@,
            forall|o: Seq<char>| o != e.grantor@ ==> post.ops_of(o) == pre.ops_of(o),
            forall|k: Seq<char>| post.spec_has(k) <==> pre.spec_has(k),
            forall|k: Seq<char>| pre.spec_has(k) ==> post.rec(k) == pre.rec(k),
    {
        let n = pre.operators@.len() as int;
        assert forall|a: int, b: int|
            0 <= a < b < post.operators@.len() implies post.operators@[a].grantor@
            != post.operators@[b].grantor@ by {
            if b < n {
                assert(pre.operators@[a].grantor@ != pre.operators@[b].grantor@);
            } else {
                assert(post.operators@[b] == e);
                if pre.operators@[a].grantor@ == e.grantor@ {
                    assert(pre.spec_has_ops(e.grantor@));
                }
            }
        }
        post.lemma_ops_at(n);
        assert forall|o: Seq<char>| o != e.grantor@ implies post.ops_of(o) == pre.ops_of(o) by {
            if pre.spec_has_ops(o) {
                let j = pre.ops_index(o);
                pre.lemma_ops_at(j);
                assert(post.operators@[j].grantor@ == o);
                post.lemma_ops_at(j);
            } else {
                if post.spec_has_ops(o) {
                    let j = post.ops_index(o);
                    assert(j < n);
                    assert(pre.operators@[j].grantor@ == o);
                }
            }
        }
    }

    /// Two registries with the same tables agree on every key, whatever
    /// their configurations.
    pub proof fn lemma_same_tables(pre: Registry, post: Registry)
        requires
            pre.wf(),
            post.names@ == pre.names@,
            post.operators@ == pre.operators@,
        ensures
            post.wf(),
            forall|k: Seq<char>| post.spec_has(k) <==> pre.spec_has(k),
            forall|k: Seq<char>| pre.spec_has(k) ==> post.rec(k) == pre.rec(k),
            forall|o: Seq<char>| post.ops_of(o) == pre.ops_of(o),
    {
        assert forall|k: Seq<char>| pre.spec_has(k) implies post.rec(k) == pre.rec(k) by {
            let j = pre.index_of(k);
            pre.lemma_rec_at(j);
            assert(post.names@[j].id@ == k);
            post.lemma_rec_at(j);
        }
        assert forall|o: Seq<char>| post.ops_of(o) == pre.ops_of(o) by {
            if pre.spec_has_ops(o) {
                let j = pre.ops_index(o);
                pre.lemma_ops_at(j);
                assert(post.operators@[j].grantor@ == o);
                post.lemma_ops_at(j);
            } else {
                if post.spec_has_ops(o) {
                    let j = post.ops_index(o);
                    assert(pre.operators@[j].grantor@ == o);
                }
            }
        }
    }

    /// Linear scan of the lease table for the record keyed by `id`.
    pub fn find_name(&self, id: &String) -> (r: Option<usize>)
        requires
            self.wf(),
        ensures
            match r {
                Some(i) => {
                    &&& i < self.names@.len()
                    &&& self.names@[i as int].id@ == id@
                    &&& self.spec_has(id@)
                    &&& self.rec(id@) == self.names@[i as int]
                },
                None => !self.spec_has(id@),
            },
    {
        let mut i: usize = 0;
        while i < self.names.len()
            invariant
                self.wf(),
                i <= self.names@.len(),
                forall|j: int| 0 <= j < i ==> self.names@[j].id@ != id@,
            decreases self.names@.len() - i,
        {
            if self.names[i].id == *id {
                proof {
                    self.lemma_rec_at(i as int);
                }
                return Some(i);
            }
            i += 1;
        }
        None
    }

    /// Linear scan of the operator directory for the entry of grantor `o`.
    pub fn find_ops(&self, o: &String) -> (r: Option<usize>)
        requires
            self.wf(),
        ensures
            match r {
                Some(i) => {
                    &&& i < self.operators@.len()
                    &&& self.operators@[i as int].grantor@ == o@
                    &&& self.spec_has_ops(o@)
                    &&& self.ops_of(o@) == self.operators@[i as int].grants@
                },
                None => !self.spec_has_ops(o@),
            },
    {
        let mut i: usize = 0;
        while i < self.operators.len()
            invariant
                self.wf(),
                i <= self.operators@.len(),
                forall|j: int| 0 <= j < i ==> self.operators@[j].grantor@ != o@,
            decreases self.operators@.len() - i,
        {
            if self.operators[i].grantor == *o {
                proof {
                    self.lemma_ops_at(i as int);
                }
                return Some(i);
            }
            i += 1;
        }
        None
    }
}

} // verus!
