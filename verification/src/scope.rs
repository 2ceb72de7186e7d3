//! Hierarchical cancellation scopes.
//!
//! A scope is one-shot: its cancelled flag only ever moves from false to
//! true. Scopes form a tree held in one arena, each child keeping the
//! index of its parent; a parent's index is always smaller than the
//! child's, because children are created after their parents. Cancelling
//! a scope pushes the flag to every descendant at once, so a cancelled
//! ancestor is always observable from every scope below it.

use vstd::prelude::*;

verus! {

/// One scope: the index of its parent, if any, and its cancelled flag.
#[derive(Debug, Clone, Copy)]
pub struct ScopeEntry {
    pub parent: Option<usize>,
    pub cancelled: bool,
}

/// The arena holding the whole scope tree.
#[derive(Debug, Clone)]
pub struct ScopeArena {
    pub scopes: Vec<ScopeEntry>,
}

impl ScopeArena {
    /// How many scopes exist.
    pub open spec fn len(self) -> int {
        self.scopes@.len() as int
    }

    /// The parent of scope `j`.
    pub open spec fn parent_of(self, j: int) -> Option<usize>
        recommends
            0 <= j < self.len(),
    {
        self.scopes@[j].parent
    }

    /// The cancelled flag of scope `j`.
    pub open spec fn flag(self, j: int) -> bool
        recommends
            0 <= j < self.len(),
    {
        self.scopes@[j].cancelled
    }

    /// Scope `j` is a strict descendant of scope `a`.
    pub open spec fn reaches(self, j: int, a: int) -> bool
        decreases j,
    {
        if 0 <= j < self.len() {
            match self.parent_of(j) {
                Option::Some(p) => p < j && (p == a || self.reaches(p as int, a)),
                Option::None => false,
            }
        } else {
            false
        }
    }

    /// Every parent was created before its children.
    pub open spec fn parents_before(self) -> bool {
        forall|j: int|
            0 <= j < self.len() ==> (#[trigger] self.parent_of(j) matches Option::Some(p) ==> p
                < j)
    }

    /// A cancelled parent always has cancelled children: cancellation has
    /// already been pushed all the way down.
    pub open spec fn propagated(self) -> bool {
        forall|j: int|
            0 <= j < self.len() ==> (#[trigger] self.parent_of(j) matches Option::Some(p)
                ==> (self.flag(p as int) ==> self.flag(j)))
    }

    pub open spec fn wf(self) -> bool {
        self.parents_before() && self.propagated()
    }

    /// An ancestor's index is always below a descendant's.
    pub proof fn lemma_reaches_below(self, j: int, a: int)
        requires
            self.reaches(j, a),
        ensures
            a < j,
        decreases j,
    {
        match self.parent_of(j) {
            Option::Some(p) => {
                if p != a {
                    self.lemma_reaches_below(p as int, a);
                }
            },
            Option::None => {},
        }
    }

    /// `reaches` only reads the parent links, so it is the same in any two
    /// arenas that agree on them up to `j`.
    pub proof fn lemma_reaches_congruence(a1: ScopeArena, a2: ScopeArena, j: int, t: int)
        requires
            forall|k: int|
                0 <= k <= j ==> ((k < a1.len() <==> k < a2.len()) && (k < a1.len()
                    ==> #[trigger] a1.parent_of(k) == a2.parent_of(k))),
        ensures
            a1.reaches(j, t) == a2.reaches(j, t),
        decreases j,
    {
        if 0 <= j < a1.len() {
            match a1.parent_of(j) {
                Option::Some(p) => {
                    if p < j {
                        Self::lemma_reaches_congruence(a1, a2, p as int, t);
                    }
                },
                Option::None => {},
            }
        }
    }

    /// In a well-formed arena a cancelled scope has every descendant
    /// cancelled.
    pub proof fn lemma_cancelled_descendants(self, j: int, a: int)
        requires
            self.wf(),
            self.reaches(j, a),
            self.flag(a),
        ensures
            self.flag(j),
        decreases j,
    {
        match self.parent_of(j) {
            Option::Some(p) => {
                if p != a {
                    self.lemma_cancelled_descendants(p as int, a);
                }
            },
            Option::None => {},
        }
    }

    /// An empty arena.
    pub fn new() -> (r: ScopeArena)
        ensures
            r.wf(),
            r.len() == 0,
    {
        ScopeArena { scopes: Vec::new() }
    }

    /// Creates an independent root scope and returns its index.
    pub fn new_root(&mut self) -> (r: usize)
        requires
            old(self).wf(),
        ensures
            final(self).wf(),
            r == old(self).len(),
            final(self).len() == old(self).len() + 1,
            final(self).parent_of(r as int) is None,
            !final(self).flag(r as int),
            forall|j: int|
                0 <= j < old(self).len() ==> #[trigger] final(self).parent_of(j) == old(
                    self,
                ).parent_of(j) && final(self).flag(j) == old(self).flag(j),
    {
        let r = self.scopes.len();
        self.scopes.push(ScopeEntry { parent: None, cancelled: false });
        proof {
            assert forall|j: int| 0 <= j < old(self).len() implies #[trigger] self.parent_of(j)
                == old(self).parent_of(j) && self.flag(j) == old(self).flag(j) by {
                assert(self.scopes@[j] == old(self).scopes@[j]);
            }
        }
        r
    }

    /// Creates a scope derived from `parent` and returns its index. The
    /// child starts with its parent's flag: a scope derived from a
    /// cancelled ancestor is born cancelled.
    pub fn new_child(&mut self, parent: usize) -> (r: usize)
        requires
            old(self).wf(),
            parent < old(self).len(),
        ensures
            final(self).wf(),
            r == old(self).len(),
            final(self).len() == old(self).len() + 1,
            final(self).parent_of(r as int) == Option::Some(parent),
            final(self).flag(r as int) == old(self).flag(parent as int),
            final(self).reaches(r as int, parent as int),
            forall|j: int|
                0 <= j < old(self).len() ==> #[trigger] final(self).parent_of(j) == old(
                    self,
                ).parent_of(j) && final(self).flag(j) == old(self).flag(j),
            forall|j: int, t: int|
                j < old(self).len() ==> #[trigger] final(self).reaches(j, t) == old(self).reaches(
                    j,
                    t,
                ),
    {
        let r = self.scopes.len();
        let flag = self.scopes[parent].cancelled;
        self.scopes.push(ScopeEntry { parent: Some(parent), cancelled: flag });
        proof {
            assert forall|j: int| 0 <= j < old(self).len() implies #[trigger] self.parent_of(j)
                == old(self).parent_of(j) && self.flag(j) == old(self).flag(j) by {
                assert(self.scopes@[j] == old(self).scopes@[j]);
            }
            assert forall|j: int, t: int| j < old(self).len() implies #[trigger] self.reaches(j, t)
                == old(self).reaches(j, t) by {
                Self::lemma_reaches_congruence(*self, *old(self), j, t);
            }
        }
        r
    }

    /// Non-blocking poll of the cancelled flag.
    pub fn is_cancelled(&self, id: usize) -> (r: bool)
        requires
            id < self.len(),
        ensures
            r == self.flag(id as int),
    {
        self.scopes[id].cancelled
    }

    /// Cancels scope `id` and pushes the flag to every descendant in one
    /// pass. Cancellation is idempotent, monotonic (no flag is ever
    /// cleared) and cannot fail; scopes outside the cancelled subtree are
    /// untouched.
    pub fn cancel(&mut self, id: usize)
        requires
            old(self).wf(),
            id < old(self).len(),
        ensures
            final(self).wf(),
            final(self).len() == old(self).len(),
            forall|j: int|
                0 <= j < old(self).len() ==> #[trigger] final(self).parent_of(j) == old(
                    self,
                ).parent_of(j),
            forall|j: int|
                0 <= j < old(self).len() ==> #[trigger] final(self).flag(j) == (old(self).flag(j)
                    || j == id || old(self).reaches(j, id as int)),
            forall|j: int, t: int|
                #[trigger] final(self).reaches(j, t) == old(self).reaches(j, t),
    {
        let ghost pre = *old(self);
        let n = self.scopes.len();
        self.scopes[id].cancelled = true;
        proof {
            assert forall|k: int| 0 <= k <= id implies !pre.reaches(k, id as int) by {
                if pre.reaches(k, id as int) {
                    pre.lemma_reaches_below(k, id as int);
                }
            }
        }
        let mut j: usize = id + 1;
        while j < n
            invariant
                pre.wf(),
                n == pre.len(),
                self.len() == n,
                id < n,
                id < j <= n,
                forall|k: int|
                    0 <= k < n ==> #[trigger] self.parent_of(k) == pre.parent_of(k),
                forall|k: int|
                    0 <= k < j ==> #[trigger] self.flag(k) == (pre.flag(k) || k == id
                        || pre.reaches(k, id as int)),
                forall|k: int| j <= k < n ==> #[trigger] self.flag(k) == pre.flag(k),
            decreases n - j,
        {
            let ghost before = *self;
            let e = self.scopes[j];
            match e.parent {
                Some(p) => {
                    proof {
                        assert(e.parent == self.parent_of(j as int));
                        assert(pre.parent_of(j as int) == Option::Some(p));
                        assert(p < j);
                    }
                    let parent_cancelled = self.scopes[p].cancelled;
                    proof {
                        assert(parent_cancelled == self.flag(p as int));
                        assert(self.flag(p as int) == (pre.flag(p as int) || p == id
                            || pre.reaches(p as int, id as int)));
                        assert(pre.reaches(j as int, id as int) == (p == id || pre.reaches(
                            p as int,
                            id as int,
                        )));
                        if pre.flag(p as int) {
                            assert(pre.flag(j as int));
                        }
                    }
                    if parent_cancelled {
                        let mut entry = self.scopes[j];
                        entry.cancelled = true;
                        self.scopes[j] = entry;
                        proof {
                            assert(self.scopes@ =~= before.scopes@.update(j as int, entry));
                            assert forall|k: int| 0 <= k < n implies #[trigger] self.parent_of(k)
                                == pre.parent_of(k) by {
                                if k != j {
                                    assert(self.scopes@[k] == before.scopes@[k]);
                                    assert(before.parent_of(k) == pre.parent_of(k));
                                } else {
                                    assert(self.scopes@[k].parent == entry.parent);
                                    assert(entry.parent == before.scopes@[j as int].parent);
                                    assert(before.parent_of(j as int) == pre.parent_of(j as int));
                                }
                            }
                            assert forall|k: int| 0 <= k < n && k != j implies #[trigger] self.flag(
                                k,
                            ) == before.flag(k) by {
                                assert(self.scopes@[k] == before.scopes@[k]);
                            }
                            assert(self.flag(j as int));
                        }
                    }
                    proof {
                        assert(self.flag(j as int) == (pre.flag(j as int) || j == id
                            || pre.reaches(j as int, id as int)));
                    }
                },
                None => {
                    proof {
                        assert(!pre.reaches(j as int, id as int));
                        assert(self.flag(j as int) == before.flag(j as int));
                    }
                },
            }
            j += 1;
        }
        proof {
            assert forall|k: int, t: int| #[trigger] self.reaches(k, t) == pre.reaches(k, t) by {
                Self::lemma_reaches_congruence(*self, pre, k, t);
            }
            assert forall|k: int|
                0 <= k < self.len() implies (#[trigger] self.parent_of(k) matches Option::Some(p)
                ==> (self.flag(p as int) ==> self.flag(k))) by {
                match self.parent_of(k) {
                    Option::Some(p) => {
                        if self.flag(p as int) {
                            if pre.flag(p as int) {
                                assert(pre.flag(k));
                            } else {
                                assert(p == id || pre.reaches(p as int, id as int));
                                assert(pre.reaches(k, id as int));
                            }
                            assert(self.flag(k));
                        }
                    },
                    Option::None => {},
                }
            }
        }
    }
}

} // verus!
