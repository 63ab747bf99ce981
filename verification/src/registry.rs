//! A name-keyed collection kept in ascending name order: the storage of the
//! tool and prompt registries.
use vstd::prelude::*;
use crate::text::{
    lemma_seq_less_asymmetric, lemma_seq_less_irreflexive, lemma_seq_less_total,
    lemma_seq_less_transitive, seq_less, str_equal, str_less,
};

verus! {

/// Something registered under a name.
pub trait Named {
    /// The name.
    spec fn name_of(&self) -> Seq<char>;

    /// The name.
    fn name(&self) -> (r: &str)
        ensures
            r@ == self.name_of(),
    ;
}

/// Names strictly increase along `s` (so no name occurs twice).
pub open spec fn sorted_by_name<E: Named>(s: Seq<E>) -> bool {
    forall|i: int, j: int| 0 <= i < j < s.len() ==> seq_less(s[i].name_of(), s[j].name_of())
}

/// Some entry of `s` is named `n`.
pub open spec fn has_name<E: Named>(s: Seq<E>, n: Seq<char>) -> bool {
    exists|i: int| 0 <= i < s.len() && s[i].name_of() == n
}

/// A position of `s` holding an entry named `n` (meaningful when
/// `has_name(s, n)`).
pub open spec fn position_of<E: Named>(s: Seq<E>, n: Seq<char>) -> int {
    choose|i: int| 0 <= i < s.len() && s[i].name_of() == n
}

/// The entry of `s` named `n`, if any.
pub open spec fn lookup<E: Named>(s: Seq<E>, n: Seq<char>) -> Option<E> {
    if has_name(s, n) {
        Some(s[position_of(s, n)])
    } else {
        None
    }
}

/// In a name-sorted sequence the entry at `i` is the one found by its name.
pub proof fn lemma_lookup_at<E: Named>(s: Seq<E>, k: int)
    requires
        sorted_by_name(s),
        0 <= k < s.len(),
    ensures
        lookup(s, s[k].name_of()) == Some(s[k]),
{
    let n = s[k].name_of();
    assert(has_name(s, n));
    let j = position_of(s, n);
    if j != k {
        lemma_seq_less_irreflexive(n);
        if j < k {
            assert(seq_less(s[j].name_of(), s[k].name_of()));
        } else {
            assert(seq_less(s[k].name_of(), s[j].name_of()));
        }
    }
}

/// Entries kept in ascending name order.
pub struct NameIndex<E: Named> {
    entries: Vec<E>,
}

impl<E: Named> NameIndex<E> {
    #[verifier::type_invariant]
    spec fn sorted(self) -> bool {
        sorted_by_name(self.entries@)
    }

    /// The entries, in ascending name order.
    pub closed spec fn entries(self) -> Seq<E> {
        self.entries@
    }

    /// An empty index.
    pub fn new() -> (r: NameIndex<E>)
        ensures
            r.entries() == Seq::<E>::empty(),
    {
        NameIndex { entries: Vec::new() }
    }

    /// Number of entries.
    pub fn len(&self) -> (r: usize)
        ensures
            r == self.entries().len(),
            sorted_by_name(self.entries()),
    {
        proof {
            use_type_invariant(self);
        }
        self.entries.len()
    }

    /// The entry at position `i` in name order.
    pub fn at(&self, i: usize) -> (r: &E)
        requires
            i < self.entries().len(),
        ensures
            *r == self.entries()[i as int],
    {
        &self.entries[i]
    }

    /// The entry named `name`, if any.
    pub fn get(&self, name: &str) -> (r: Option<&E>)
        ensures
            match r {
                Some(e) => lookup(self.entries(), name@) == Some(*e),
                None => lookup(self.entries(), name@) is None,
            },
    {
        proof {
            use_type_invariant(self);
        }
        let n = self.entries.len();
        let mut i: usize = 0;
        while i < n
            invariant
                n == self.entries@.len(),
                i <= n,
                sorted_by_name(self.entries@),
                forall|k: int| 0 <= k < i ==> self.entries@[k].name_of() != name@,
            decreases n - i,
        {
            let e = &self.entries[i];
            if str_equal(e.name(), name) {
                proof {
                    lemma_lookup_at(self.entries@, i as int);
                }
                return Some(e);
            }
            i = i + 1;
        }
        None
    }

    /// Insert `e`, replacing the entry of the same name; returns the entry
    /// it replaced.
    pub fn insert(&mut self, e: E) -> (r: Option<E>)
        ensures
            r == lookup(old(self).entries(), e.name_of()),
            forall|n: Seq<char>| #[trigger]
                lookup(final(self).entries(), n) == if n == e.name_of() {
                    Some(e)
                } else {
                    lookup(old(self).entries(), n)
                },
            final(self).entries().len() == old(self).entries().len() + if r is Some {
                0int
            } else {
                1int
            },
            sorted_by_name(final(self).entries()),
    {
        proof {
            use_type_invariant(&*self);
        }
        let ghost old_s = self.entries@;
        let ghost en = e.name_of();
        let n = self.entries.len();
        let mut p: usize = 0;
        while p < n && str_less(self.entries[p].name(), e.name())
            invariant
                n == self.entries@.len(),
                old_s == self.entries@,
                en == e.name_of(),
                p <= n,
                sorted_by_name(old_s),
                forall|k: int| 0 <= k < p ==> seq_less(#[trigger] old_s[k].name_of(), en),
            decreases n - p,
        {
            p = p + 1;
        }
        proof {
            // every entry from `p` on has a name not below `en`
            assert forall|k: int| p <= k < n implies !seq_less(
                #[trigger] old_s[k].name_of(),
                en,
            ) by {
                if seq_less(old_s[k].name_of(), en) {
                    assert(!seq_less(old_s[p as int].name_of(), en));
                    if k > p {
                        lemma_seq_less_transitive(
                            old_s[p as int].name_of(),
                            old_s[k].name_of(),
                            en,
                        );
                    }
                }
            }
        }
        if p < n && str_equal(self.entries[p].name(), e.name()) {
            let mut slot = e;
            let ghost new_s = old_s.update(p as int, slot);
            let mut v: Vec<E> = Vec::new();
            std::mem::swap(&mut v, &mut self.entries);
            v.set_and_swap(p, &mut slot);
            assert(v@ == new_s);
            assert(sorted_by_name(new_s)) by {
                assert forall|i: int, j: int| 0 <= i < j < new_s.len() implies seq_less(
                    new_s[i].name_of(),
                    new_s[j].name_of(),
                ) by {
                    assert(old_s[p as int].name_of() == en);
                }
            }
            self.entries = v;
            proof {
                assert(self.entries@ == new_s);
                assert(sorted_by_name(new_s)) by {
                    assert forall|i: int, j: int| 0 <= i < j < new_s.len() implies seq_less(
                        new_s[i].name_of(),
                        new_s[j].name_of(),
                    ) by {
                        assert(old_s[p as int].name_of() == en);
                    }
                }
                lemma_lookup_at(old_s, p as int);
                assert forall|m: Seq<char>| #[trigger]
                    lookup(new_s, m) == if m == en {
                        Some(e)
                    } else {
                        lookup(old_s, m)
                    } by {
                    if m == en {
                        lemma_lookup_at(new_s, p as int);
                    } else if has_name(old_s, m) {
                        let k = position_of(old_s, m);
                        lemma_lookup_at(old_s, k);
                        lemma_lookup_at(new_s, k);
                    } else {
                        assert(!has_name(new_s, m));
                    }
                }
            }
            Some(slot)
        } else {
            proof {
                if p < n {
                    lemma_seq_less_total(old_s[p as int].name_of(), en);
                }
                assert(!has_name(old_s, en)) by {
                    if has_name(old_s, en) {
                        let k = choose|k: int| 0 <= k < old_s.len() && old_s[k].name_of() == en;
                        lemma_seq_less_irreflexive(en);
                        if k > p {
                            lemma_seq_less_transitive(en, old_s[p as int].name_of(), en);
                        }
                    }
                }
            }
            proof {
                assert forall|k: int| p <= k < n implies seq_less(en, #[trigger] old_s[k].name_of())
                    by {
                    assert(old_s[k].name_of() != en);
                    lemma_seq_less_total(old_s[k].name_of(), en);
                }
            }
            let ghost new_s = old_s.insert(p as int, e);
            let mut v: Vec<E> = Vec::new();
            std::mem::swap(&mut v, &mut self.entries);
            v.insert(p, e);
            assert(v@ == new_s);
            assert(sorted_by_name(new_s)) by {
                    assert forall|i: int, j: int| 0 <= i < j < new_s.len() implies seq_less(
                        new_s[i].name_of(),
                        new_s[j].name_of(),
                    ) by {
                        if i < p && j == p {
                        } else if i < p && j > p {
                            lemma_seq_less_transitive(
                                old_s[i].name_of(),
                                en,
                                old_s[j - 1].name_of(),
                            );
                        } else if i == p {
                            assert(new_s[j] == old_s[j - 1]);
                        } else if i > p {
                            assert(new_s[i] == old_s[i - 1] && new_s[j] == old_s[j - 1]);
                    } else {
                        assert(new_s[i] == old_s[i] && new_s[j] == old_s[j]);
                    }
                }
            }
            self.entries = v;
            proof {
                assert(self.entries@ == new_s);
                assert forall|m: Seq<char>| #[trigger]
                    lookup(new_s, m) == if m == en {
                        Some(e)
                    } else {
                        lookup(old_s, m)
                    } by {
                    if m == en {
                        lemma_lookup_at(new_s, p as int);
                    } else if has_name(old_s, m) {
                        let k = position_of(old_s, m);
                        lemma_lookup_at(old_s, k);
                        if k < p {
                            lemma_lookup_at(new_s, k);
                        } else {
                            assert(new_s[k + 1] == old_s[k]);
                            lemma_lookup_at(new_s, k + 1);
                        }
                    } else {
                        assert(!has_name(new_s, m)) by {
                            if has_name(new_s, m) {
                                let k = choose|k: int|
                                    0 <= k < new_s.len() && new_s[k].name_of() == m;
                                if k < p {
                                    assert(old_s[k].name_of() == m);
                                } else if k > p {
                                    assert(old_s[k - 1].name_of() == m);
                                }
                            }
                        }
                    }
                }
            }
            None
        }
    }
}

} // verus!
