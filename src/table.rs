//! A table of references keyed by their paths, at most one entry per path.
use vstd::prelude::*;

use crate::path::{ActorPath, PathModel};
use crate::reference::ActorRef;

verus! {

pub open spec fn paths_unique(s: Seq<ActorRef>) -> bool {
    forall|i: int, j: int| 0 <= i < s.len() && 0 <= j < s.len() && i != j ==> s[i].path@ != s[j].path@
}

pub open spec fn holds_path(s: Seq<ActorRef>, p: PathModel) -> bool {
    exists|i: int| 0 <= i < s.len() && s[i].path@ == p
}

/// The entry of path `p` in `s`, where there is one.
pub open spec fn entry_of(s: Seq<ActorRef>, p: PathModel) -> Option<ActorRef> {
    if holds_path(s, p) {
        Some(s[choose|i: int| 0 <= i < s.len() && s[i].path@ == p])
    } else {
        None
    }
}

/// What removing the entry of path `p` from `pre` does, with result `r`.
pub open spec fn removal(pre: Seq<ActorRef>, post: Seq<ActorRef>, p: PathModel, r: Option<ActorRef>) -> bool {
    &&& r == entry_of(pre, p)
    &&& r is None ==> post == pre
    &&& entry_of(post, p) is None
    &&& forall|q: PathModel| q != p ==> entry_of(post, q) == entry_of(pre, q)
}

/// Removing the same path twice finds its entry at most once: the second removal finds
/// nothing and changes nothing.
pub proof fn lemma_remove_twice(
    s0: Seq<ActorRef>,
    s1: Seq<ActorRef>,
    s2: Seq<ActorRef>,
    p: PathModel,
    r1: Option<ActorRef>,
    r2: Option<ActorRef>,
)
    requires
        removal(s0, s1, p, r1),
        removal(s1, s2, p, r2),
    ensures
        r2 is None,
        s2 == s1,
{
}

/// In a table of unique paths, the entry at `i` is the entry of its path.
pub proof fn lemma_entry_at(s: Seq<ActorRef>, i: int)
    requires
        paths_unique(s),
        0 <= i < s.len(),
    ensures
        entry_of(s, s[i].path@) == Some(s[i]),
{
    let p = s[i].path@;
    assert(holds_path(s, p));
    let k = choose|k: int| 0 <= k < s.len() && s[k].path@ == p;
    assert(k == i);
}

/// References keyed by path.
pub struct RefTable {
    entries: Vec<ActorRef>,
}

impl View for RefTable {
    type V = Seq<ActorRef>;

    closed spec fn view(&self) -> Seq<ActorRef> {
        self.entries@
    }
}

impl RefTable {
    pub open spec fn wf(&self) -> bool {
        paths_unique(self@)
    }

    /// An empty table.
    pub fn new() -> (r: RefTable)
        ensures
            r@.len() == 0,
            r.wf(),
            forall|p: PathModel| entry_of(r@, p) is None,
    {
        RefTable { entries: Vec::new() }
    }

    /// The entries, in no particular order.
    pub fn entries(&self) -> (r: &Vec<ActorRef>)
        ensures
            r@ == self@,
    {
        &self.entries
    }

    fn position(&self, p: &ActorPath) -> (r: Option<usize>)
        ensures
            match r {
                Some(i) => i < self@.len() && self@[i as int].path@ == p@,
                None => !holds_path(self@, p@),
            },
    {
        let mut i: usize = 0;
        while i < self.entries.len()
            invariant
                i <= self@.len(),
                self@ == self.entries@,
                forall|j: int| 0 <= j < i ==> self@[j].path@ != p@,
            decreases self@.len() - i,
        {
            if self.entries[i].path.equals(p) {
                return Some(i);
            }
            i = i + 1;
        }
        None
    }

    /// Whether path `p` has an entry.
    pub fn contains(&self, p: &ActorPath) -> (r: bool)
        ensures
            r == holds_path(self@, p@),
            r == entry_of(self@, p@) is Some,
    {
        self.position(p).is_some()
    }

    /// A copy of the entry of path `p`, where there is one.
    pub fn get(&self, p: &ActorPath) -> (r: Option<ActorRef>)
        requires
            self.wf(),
        ensures
            r == entry_of(self@, p@),
            r matches Some(c) ==> c.path@ == p@ && self@.contains(c),
    {
        match self.position(p) {
            Some(i) => {
                proof {
                    lemma_entry_at(self@, i as int);
                }
                Some(self.entries[i].clone())
            },
            None => None,
        }
    }

    /// Records `r` under its path, replacing an entry of the same path.
    pub fn insert(&mut self, r: ActorRef)
        requires
            old(self).wf(),
        ensures
            final(self).wf(),
            final(self)@.contains(r),
            entry_of(final(self)@, r.path@) == Some(r),
            forall|q: PathModel| q != r.path@ ==> entry_of(final(self)@, q) == entry_of(old(self)@, q),
    {
        let ghost pre = self.entries@;
        let kept = r.clone();
        let k: usize;
        match self.position(&r.path) {
            Some(i) => {
                self.entries.set(i, r);
                k = i;
            },
            None => {
                self.entries.push(r);
                k = self.entries.len() - 1;
            },
        }
        let ghost post = self.entries@;
        assert(post[k as int] == kept);
        assert(paths_unique(post)) by {
            assert forall|a: int, b: int|
                0 <= a < post.len() && 0 <= b < post.len() && a != b implies post[a].path@
                != post[b].path@ by {
                if a != k && b != k {
                    assert(post[a] == pre[a]);
                    assert(post[b] == pre[b]);
                } else if a == k {
                    assert(post[b] == pre[b]);
                    if b < pre.len() && k < pre.len() {
                    }
                } else {
                    assert(post[a] == pre[a]);
                }
            }
        }
        proof {
            lemma_entry_at(post, k as int);
        }
        assert forall|q: PathModel| q != kept.path@ implies entry_of(post, q) == entry_of(
            pre,
            q,
        ) by {
            if holds_path(pre, q) {
                let j = choose|j: int| 0 <= j < pre.len() && pre[j].path@ == q;
                assert(j != k);
                assert(post[j] == pre[j]);
                lemma_entry_at(pre, j);
                lemma_entry_at(post, j);
            }
            if holds_path(post, q) {
                let j = choose|j: int| 0 <= j < post.len() && post[j].path@ == q;
                assert(j != k);
                assert(post[j] == pre[j]);
                lemma_entry_at(pre, j);
                lemma_entry_at(post, j);
            }
        }
    }

    /// Removes the entry of path `p`. Returns it; `None`, and nothing changed, where
    /// there was none.
    pub fn remove(&mut self, p: &ActorPath) -> (r: Option<ActorRef>)
        requires
            old(self).wf(),
        ensures
            final(self).wf(),
            removal(old(self)@, final(self)@, p@, r),
    {
        let ghost pre = self.entries@;
        match self.position(p) {
            Some(i) => {
                let c = self.entries.remove(i);
                let ghost post = self.entries@;
                assert(post == pre.remove(i as int));
                assert forall|a: int, b: int|
                    0 <= a < post.len() && 0 <= b < post.len() && a != b implies post[a].path@
                    != post[b].path@ by {
                    let a2 = if a < i { a } else { a + 1 };
                    let b2 = if b < i { b } else { b + 1 };
                    assert(post[a] == pre[a2]);
                    assert(post[b] == pre[b2]);
                }
                proof {
                    lemma_entry_at(pre, i as int);
                }
                assert forall|q: PathModel| q != p@ implies entry_of(post, q) == entry_of(
                    pre,
                    q,
                ) by {
                    if holds_path(pre, q) {
                        let k = choose|k: int| 0 <= k < pre.len() && pre[k].path@ == q;
                        assert(k != i);
                        let k2 = if k < i { k } else { k - 1 };
                        assert(post[k2] == pre[k]);
                        lemma_entry_at(pre, k);
                        lemma_entry_at(post, k2);
                    }
                    if holds_path(post, q) {
                        let k = choose|k: int| 0 <= k < post.len() && post[k].path@ == q;
                        let k2 = if k < i { k } else { k + 1 };
                        assert(post[k] == pre[k2]);
                        lemma_entry_at(pre, k2);
                        lemma_entry_at(post, k);
                    }
                }
                assert(!holds_path(post, p@)) by {
                    if holds_path(post, p@) {
                        let k = choose|k: int| 0 <= k < post.len() && post[k].path@ == p@;
                        let k2 = if k < i { k } else { k + 1 };
                        assert(post[k] == pre[k2]);
                    }
                }
                Some(c)
            },
            None => None,
        }
    }
}

} // verus!
