use vstd::prelude::*;

verus! {

/// One tracked file: how many leading bytes of its source counterpart have
/// already been appended to the destination copy. `mirrored_len` is the
/// engine's authoritative logical counter; it is never recomputed from disk.
pub struct MirrorEntry {
    pub rel_path: String,
    pub mirrored_len: u64,
}

/// The set of files currently mirrored, keyed by the path relative to both
/// tree roots. Its view is the mathematical map from relative path to
/// mirrored length; a key is present exactly while the engine believes the
/// corresponding source file exists.
pub struct MirrorState {
    entries: Vec<MirrorEntry>,
}

impl MirrorState {
    /// Keys are unique: at most one entry per relative path.
    pub closed spec fn wf(&self) -> bool {
        forall|i: int, j: int|
            0 <= i < j < self.entries@.len() ==> self.entries@[i].rel_path@
                != self.entries@[j].rel_path@
    }
}

impl View for MirrorState {
    type V = Map<Seq<char>, u64>;

    closed spec fn view(&self) -> Map<Seq<char>, u64> {
        Map::new(
            |k: Seq<char>|
                exists|i: int| 0 <= i < self.entries@.len() && self.entries@[i].rel_path@ == k,
            |k: Seq<char>|
                self.entries@[choose|i: int|
                    0 <= i < self.entries@.len() && self.entries@[i].rel_path@ == k].mirrored_len,
        )
    }
}

impl MirrorState {
    pub fn new() -> (r: MirrorState)
        ensures
            r.wf(),
            r@ == Map::<Seq<char>, u64>::empty(),
    {
        let r = MirrorState { entries: Vec::new() };
        proof {
            assert(r@ =~= Map::<Seq<char>, u64>::empty());
        }
        r
    }

    /// The index of the entry for `k`, if one exists.
    spec fn index_of(&self, k: Seq<char>) -> int {
        choose|i: int| 0 <= i < self.entries@.len() && self.entries@[i].rel_path@ == k
    }

    /// Under `wf`, any two indices holding the same path are equal.
    proof fn lemma_index_unique(&self, i: int, j: int)
        requires
            self.wf(),
            0 <= i < self.entries@.len(),
            0 <= j < self.entries@.len(),
            self.entries@[i].rel_path@ == self.entries@[j].rel_path@,
        ensures
            i == j,
    {
        if i < j {
            assert(self.entries@[i].rel_path@ != self.entries@[j].rel_path@);
        } else if j < i {
            assert(self.entries@[j].rel_path@ != self.entries@[i].rel_path@);
        }
    }

    /// The mirrored length recorded for `path`, if the path is tracked.
    pub fn get(&self, path: &String) -> (r: Option<u64>)
        requires
            self.wf(),
        ensures
            self@.contains_key(path@) ==> r == Some(self@[path@]),
            !self@.contains_key(path@) ==> r is None,
    {
        let n = self.entries.len();
        let mut i: usize = 0;
        while i < n
            invariant
                self.wf(),
                n == self.entries@.len(),
                0 <= i <= n,
                forall|j: int| 0 <= j < i ==> self.entries@[j].rel_path@ != path@,
            decreases n - i,
        {
            if self.entries[i].rel_path == *path {
                proof {
                    let w = self.index_of(path@);
                    self.lemma_index_unique(w, i as int);
                }
                return Some(self.entries[i].mirrored_len);
            }
            i += 1;
        }
        proof {
            assert(!self@.contains_key(path@));
        }
        None
    }

    /// Stop tracking `path`, handing back its mirrored length if it was tracked.
    pub fn remove(&mut self, path: &String) -> (r: Option<u64>)
        requires
            old(self).wf(),
        ensures
            final(self).wf(),
            old(self)@.contains_key(path@) ==> r == Some(old(self)@[path@]) && final(self)@
                == old(self)@.remove(path@),
            !old(self)@.contains_key(path@) ==> r is None && final(self)@ == old(self)@,
    {
        let n = self.entries.len();
        let mut i: usize = 0;
        while i < n
            invariant
                *self == *old(self),
                self.wf(),
                n == self.entries@.len(),
                0 <= i <= n,
                forall|j: int| 0 <= j < i ==> self.entries@[j].rel_path@ != path@,
            decreases n - i,
        {
            if self.entries[i].rel_path == *path {
                proof {
                    let w = self.index_of(path@);
                    self.lemma_index_unique(w, i as int);
                }
                let ghost pre = *self;
                let e = self.entries.remove(i);
                proof {
                    self.lemma_after_remove(pre, i as int, path@);
                }
                return Some(e.mirrored_len);
            }
            i += 1;
        }
        proof {
            assert(!self@.contains_key(path@));
        }
        None
    }

    /// After removing the single entry for `k` at index `i`, the view is the
    /// old view without `k`, and well-formedness is preserved.
    proof fn lemma_after_remove(&self, pre: MirrorState, i: int, k: Seq<char>)
        requires
            pre.wf(),
            0 <= i < pre.entries@.len(),
            pre.entries@[i].rel_path@ == k,
            self.entries@ == pre.entries@.remove(i),
        ensures
            self.wf(),
            self@ == pre@.remove(k),
    {
        let s = pre.entries@;
        let t = self.entries@;
        assert(t.len() == s.len() - 1);
        assert forall|j: int| 0 <= j < t.len() implies t[j] == (if j < i {
            s[j]
        } else {
            s[j + 1]
        }) by {}
        assert(self.wf());
        assert forall|q: Seq<char>| #[trigger] self@.contains_key(q) == pre@.remove(k).contains_key(
            q,
        ) && (self@.contains_key(q) ==> self@[q] == pre@.remove(k)[q]) by {
            if q == k {
                if self@.contains_key(q) {
                    let w = choose|j: int| 0 <= j < t.len() && t[j].rel_path@ == q;
                    let w0: int = if w < i {
                        w
                    } else {
                        w + 1
                    };
                    assert(s[w0].rel_path@ == q);
                    pre.lemma_index_unique(w0, i);
                    assert(false);
                }
            } else {
                if pre@.contains_key(q) {
                    let w0 = choose|j: int| 0 <= j < s.len() && s[j].rel_path@ == q;
                    let w: int = if w0 < i {
                        w0
                    } else {
                        w0 - 1
                    };
                    assert(t[w].rel_path@ == q);
                    assert(self@.contains_key(q));
                }
                if self@.contains_key(q) {
                    let w = choose|j: int| 0 <= j < t.len() && t[j].rel_path@ == q;
                    let w0: int = if w < i {
                        w
                    } else {
                        w + 1
                    };
                    assert(s[w0].rel_path@ == q);
                    assert(pre@.contains_key(q));
                    // Both sides pick an index holding `q`; uniqueness makes
                    // the recorded lengths agree.
                    let a = self.index_of(q);
                    let a0: int = if a < i {
                        a
                    } else {
                        a + 1
                    };
                    assert(s[a0].rel_path@ == q);
                    let b = pre.index_of(q);
                    pre.lemma_index_unique(a0, b);
                    assert(self@[q] == pre@[q]);
                }
            }
        }
        assert(self@ =~= pre@.remove(k));
    }

    /// Track `path` with length `len`, replacing any previous entry for it.
    pub fn insert(&mut self, path: String, len: u64)
        requires
            old(self).wf(),
        ensures
            final(self).wf(),
            final(self)@ == old(self)@.insert(path@, len),
    {
        let ghost pre = *self;
        let _ = self.remove(&path);
        let ghost mid = *self;
        assert(!mid@.contains_key(path@));
        self.entries.push(MirrorEntry { rel_path: path, mirrored_len: len });
        proof {
            let s = mid.entries@;
            let t = self.entries@;
            assert forall|j: int| 0 <= j < s.len() implies t[j] == s[j] by {}
            assert(self.wf());
            assert forall|q: Seq<char>| #[trigger] self@.contains_key(q) == mid@.insert(
                path@,
                len,
            ).contains_key(q) && (self@.contains_key(q) ==> self@[q] == mid@.insert(path@, len)[q])
                by {
                if q == path@ {
                    assert(t[t.len() - 1].rel_path@ == q);
                    assert(self@.contains_key(q));
                    let w = self.index_of(q);
                    self.lemma_index_unique(w, t.len() - 1);
                } else {
                    if self@.contains_key(q) {
                        let w = choose|j: int| 0 <= j < t.len() && t[j].rel_path@ == q;
                        assert(w < s.len());
                        assert(s[w].rel_path@ == q);
                        assert(mid@.contains_key(q));
                        let a = self.index_of(q);
                        self.lemma_index_unique(a, w);
                        let b = mid.index_of(q);
                        mid.lemma_index_unique(b, w);
                        assert(self@[q] == mid@[q]);
                    }
                    if mid@.contains_key(q) {
                        let w = choose|j: int| 0 <= j < s.len() && s[j].rel_path@ == q;
                        assert(t[w].rel_path@ == q);
                        assert(self@.contains_key(q));
                    }
                }
            }
            assert(self@ =~= mid@.insert(path@, len));
            assert(pre@.remove(path@).insert(path@, len) =~= pre@.insert(path@, len));
        }
    }
}

} // verus!
