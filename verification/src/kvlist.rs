use vstd::prelude::*;

verus! {

/// Keys are pairwise distinct, so every lookup is unambiguous.
pub open spec fn kv_keys_unique<V>(s: Seq<(String, V)>) -> bool {
    forall|i: int, j: int| 0 <= i < j < s.len() ==> s[i].0@ != s[j].0@
}

/// Some entry carries this key.
pub open spec fn kv_has_key<V>(s: Seq<(String, V)>, k: Seq<char>) -> bool {
    exists|i: int| 0 <= i < s.len() && s[i].0@ == k
}

/// The value stored under this key (meaningful only when the key is there).
pub open spec fn kv_value_of<V>(s: Seq<(String, V)>, k: Seq<char>) -> V {
    s[choose|i: int| 0 <= i < s.len() && s[i].0@ == k].1
}

/// Every binding other than the one under `key` is the same in `news` as in
/// `olds`.
pub open spec fn kv_other_keys_kept<V>(
    olds: Seq<(String, V)>,
    news: Seq<(String, V)>,
    key: Seq<char>,
) -> bool {
    &&& forall|k2: Seq<char>|
        k2 != key ==> #[trigger] kv_has_key(news, k2) == kv_has_key(olds, k2)
    &&& forall|k2: Seq<char>|
        k2 != key && kv_has_key(olds, k2) ==> #[trigger] kv_value_of(news, k2) == kv_value_of(
            olds,
            k2,
        )
}

/// `news` is `olds` with `value` bound under `key` and nothing else changed.
pub open spec fn kv_set_applied<V>(
    olds: Seq<(String, V)>,
    news: Seq<(String, V)>,
    key: Seq<char>,
    value: V,
) -> bool {
    &&& kv_keys_unique(news)
    &&& kv_has_key(news, key)
    &&& kv_value_of(news, key) == value
    &&& kv_other_keys_kept(olds, news, key)
}

/// `news` is `olds` with any binding under `key` dropped and nothing else
/// changed.
pub open spec fn kv_remove_applied<V>(
    olds: Seq<(String, V)>,
    news: Seq<(String, V)>,
    key: Seq<char>,
) -> bool {
    &&& kv_keys_unique(news)
    &&& !kv_has_key(news, key)
    &&& kv_other_keys_kept(olds, news, key)
}

/// A map from string keys to values, kept as a vector of pairs with unique
/// keys.  Reads scan; writes replace the matching entry wholesale, so a
/// reader never observes a half-updated value.
pub struct KvList<V> {
    pub entries: Vec<(String, V)>,
}

impl<V> KvList<V> {
    /// Well-formedness: no two entries share a key.
    pub open spec fn wf(&self) -> bool {
        kv_keys_unique(self.entries@)
    }

    pub open spec fn has_key(&self, k: Seq<char>) -> bool {
        kv_has_key(self.entries@, k)
    }

    pub open spec fn value_of(&self, k: Seq<char>) -> V {
        kv_value_of(self.entries@, k)
    }

    /// The empty map.
    pub fn new() -> (r: KvList<V>)
        ensures
            r.wf(),
            forall|k: Seq<char>| !r.has_key(k),
            r.entries@.len() == 0,
    {
        KvList { entries: Vec::new() }
    }

    /// Looks the key up; absence is `None`, never an error.
    pub fn get<'a>(&'a self, key: &str) -> (r: Option<&'a V>)
        requires
            self.wf(),
        ensures
            match r {
                Some(v) => self.has_key(key@) && *v == self.value_of(key@),
                None => !self.has_key(key@),
            },
    {
        let owned: String = key.to_owned();
        let n = self.entries.len();
        let mut i: usize = 0;
        while i < n
            invariant
                self.wf(),
                n == self.entries@.len(),
                i <= n,
                owned@ == key@,
                forall|j: int| 0 <= j < i ==> self.entries@[j].0@ != key@,
            decreases n - i,
        {
            if self.entries[i].0 == owned {
                proof {
                    assert(self.entries@[i as int].0@ == key@);
                    let j = choose|j: int|
                        0 <= j < self.entries@.len() && self.entries@[j].0@ == key@;
                    assert(j == i as int);
                }
                return Some(&self.entries[i].1);
            }
            i += 1;
        }
        None
    }

    /// Stores the value under the key, replacing any previous value as one
    /// whole entry.  Every other key keeps its value.
    pub fn set(&mut self, key: String, value: V)
        requires
            old(self).wf(),
        ensures
            final(self).wf(),
            kv_set_applied(old(self).entries@, final(self).entries@, key@, value),
    {
        let ghost olds = self.entries@;
        let n = self.entries.len();
        let mut i: usize = 0;
        while i < n
            invariant
                self.wf(),
                self.entries@ == olds,
                olds == old(self).entries@,
                n == olds.len(),
                i <= n,
                forall|j: int| 0 <= j < i ==> olds[j].0@ != key@,
            decreases n - i,
        {
            if self.entries[i].0 == key {
                proof {
                    assert(olds[i as int].0@ == key@);
                }
                self.entries.remove(i);
                self.entries.insert(i, (key, value));
                proof {
                    assert(self.entries@ =~= olds.update(i as int, self.entries@[i as int]));
                    lemma_kv_update_same_key(olds, self.entries@, i as int, key@, value);
                }
                return;
            }
            i += 1;
        }
        self.entries.push((key, value));
        proof {
            lemma_kv_push_fresh_key(olds, self.entries@, key@, value);
        }
    }

    /// Removes the entry under the key, if any.  Every other key keeps its
    /// value.
    pub fn remove(&mut self, key: &str)
        requires
            old(self).wf(),
        ensures
            final(self).wf(),
            kv_remove_applied(old(self).entries@, final(self).entries@, key@),
    {
        let ghost olds = self.entries@;
        let owned: String = key.to_owned();
        let n = self.entries.len();
        let mut i: usize = 0;
        while i < n
            invariant
                self.wf(),
                self.entries@ == olds,
                olds == old(self).entries@,
                n == olds.len(),
                i <= n,
                owned@ == key@,
                forall|j: int| 0 <= j < i ==> olds[j].0@ != key@,
            decreases n - i,
        {
            if self.entries[i].0 == owned {
                proof {
                    assert(olds[i as int].0@ == key@);
                }
                self.entries.remove(i);
                proof {
                    lemma_kv_remove_key(olds, self.entries@, i as int, key@);
                }
                return;
            }
            i += 1;
        }
        proof {
            assert(!kv_has_key(olds, key@));
            assert(kv_other_keys_kept(olds, self.entries@, key@));
        }
    }
}

/// Replacing the entry at a matching index binds the new value and keeps
/// every other binding.
proof fn lemma_kv_update_same_key<V>(
    olds: Seq<(String, V)>,
    news: Seq<(String, V)>,
    i: int,
    key: Seq<char>,
    value: V,
)
    requires
        kv_keys_unique(olds),
        0 <= i < olds.len(),
        news == olds.update(i, news[i]),
        news.len() == olds.len(),
        olds[i].0@ == key,
        news[i].0@ == key,
        news[i].1 == value,
    ensures
        kv_set_applied(olds, news, key, value),
{
    assert forall|p: int, q: int| 0 <= p < q < news.len() implies news[p].0@ != news[q].0@ by {
        assert(news[p].0@ == olds[p].0@);
        assert(news[q].0@ == olds[q].0@);
    }
    assert(kv_has_key(news, key)) by {
        assert(news[i].0@ == key);
    }
    assert(kv_value_of(news, key) == value) by {
        let j = choose|j: int| 0 <= j < news.len() && news[j].0@ == key;
        if j != i {
            assert(news[j].0@ == olds[j].0@);
        }
    }
    assert forall|k2: Seq<char>| k2 != key implies #[trigger] kv_has_key(news, k2) == kv_has_key(
        olds,
        k2,
    ) by {
        if kv_has_key(news, k2) {
            let j = choose|j: int| 0 <= j < news.len() && news[j].0@ == k2;
            assert(olds[j].0@ == k2);
        }
        if kv_has_key(olds, k2) {
            let j = choose|j: int| 0 <= j < olds.len() && olds[j].0@ == k2;
            assert(news[j].0@ == k2);
        }
    }
    assert forall|k2: Seq<char>| k2 != key && kv_has_key(olds, k2) implies #[trigger] kv_value_of(
        news,
        k2,
    ) == kv_value_of(olds, k2) by {
        let j1 = choose|j: int| 0 <= j < news.len() && news[j].0@ == k2;
        let j2 = choose|j: int| 0 <= j < olds.len() && olds[j].0@ == k2;
        assert(news[j2].0@ == k2);
        assert(olds[j1].0@ == k2);
        if j1 != j2 {
            assert(false);
        }
        assert(j1 != i);
        assert(news[j1] == olds[j1]);
    }
}

/// Appending an entry under a key no other entry carries binds it and keeps
/// every other binding.
proof fn lemma_kv_push_fresh_key<V>(
    olds: Seq<(String, V)>,
    news: Seq<(String, V)>,
    key: Seq<char>,
    value: V,
)
    requires
        kv_keys_unique(olds),
        news.len() == olds.len() + 1,
        news == olds.push(news[olds.len() as int]),
        news[olds.len() as int].0@ == key,
        news[olds.len() as int].1 == value,
        forall|j: int| 0 <= j < olds.len() ==> olds[j].0@ != key,
    ensures
        kv_set_applied(olds, news, key, value),
{
    let m = olds.len() as int;
    assert forall|p: int, q: int| 0 <= p < q < news.len() implies news[p].0@ != news[q].0@ by {
        if q < m {
            assert(news[p].0@ == olds[p].0@);
            assert(news[q].0@ == olds[q].0@);
        } else {
            assert(news[p].0@ == olds[p].0@);
        }
    }
    assert(kv_has_key(news, key)) by {
        assert(news[m].0@ == key);
    }
    assert(kv_value_of(news, key) == value) by {
        let j = choose|j: int| 0 <= j < news.len() && news[j].0@ == key;
        if j < m {
            assert(olds[j].0@ == key);
            assert(false);
        }
    }
    assert forall|k2: Seq<char>| k2 != key implies #[trigger] kv_has_key(news, k2) == kv_has_key(
        olds,
        k2,
    ) by {
        if kv_has_key(news, k2) {
            let j = choose|j: int| 0 <= j < news.len() && news[j].0@ == k2;
            assert(j < m);
            assert(olds[j].0@ == k2);
        }
        if kv_has_key(olds, k2) {
            let j = choose|j: int| 0 <= j < olds.len() && olds[j].0@ == k2;
            assert(news[j].0@ == k2);
        }
    }
    assert forall|k2: Seq<char>| k2 != key && kv_has_key(olds, k2) implies #[trigger] kv_value_of(
        news,
        k2,
    ) == kv_value_of(olds, k2) by {
        let j1 = choose|j: int| 0 <= j < news.len() && news[j].0@ == k2;
        let j2 = choose|j: int| 0 <= j < olds.len() && olds[j].0@ == k2;
        assert(news[j2].0@ == k2);
        assert(j1 < m);
        assert(olds[j1].0@ == k2);
        if j1 != j2 {
            assert(false);
        }
    }
}

/// Dropping the entry at a matching index removes its binding and keeps
/// every other binding.
proof fn lemma_kv_remove_key<V>(
    olds: Seq<(String, V)>,
    news: Seq<(String, V)>,
    i: int,
    key: Seq<char>,
)
    requires
        kv_keys_unique(olds),
        0 <= i < olds.len(),
        news == olds.remove(i),
        olds[i].0@ == key,
    ensures
        kv_remove_applied(olds, news, key),
{
    assert(news.len() == olds.len() - 1);
    assert forall|p: int, q: int| 0 <= p < q < news.len() implies news[p].0@ != news[q].0@ by {
        if q < i {
            assert(news[p] == olds[p] && news[q] == olds[q]);
        } else if p < i {
            assert(news[p] == olds[p] && news[q] == olds[q + 1]);
        } else {
            assert(news[p] == olds[p + 1] && news[q] == olds[q + 1]);
        }
    }
    assert forall|j: int| 0 <= j < news.len() implies news[j].0@ != key by {
        if j < i {
            assert(news[j] == olds[j]);
        } else {
            assert(news[j] == olds[j + 1]);
        }
    }
    assert forall|k2: Seq<char>| k2 != key implies #[trigger] kv_has_key(news, k2) == kv_has_key(
        olds,
        k2,
    ) by {
        if kv_has_key(news, k2) {
            let j = choose|j: int| 0 <= j < news.len() && news[j].0@ == k2;
            if j < i {
                assert(olds[j].0@ == k2);
            } else {
                assert(olds[j + 1].0@ == k2);
            }
        }
        if kv_has_key(olds, k2) {
            let j = choose|j: int| 0 <= j < olds.len() && olds[j].0@ == k2;
            assert(j != i);
            if j < i {
                assert(news[j].0@ == k2);
            } else {
                assert(news[j - 1].0@ == k2);
            }
        }
    }
    assert forall|k2: Seq<char>| k2 != key && kv_has_key(olds, k2) implies #[trigger] kv_value_of(
        news,
        k2,
    ) == kv_value_of(olds, k2) by {
        assert(kv_has_key(news, k2));
        let j1 = choose|j: int| 0 <= j < news.len() && news[j].0@ == k2;
        let jo = if j1 < i {
            j1
        } else {
            j1 + 1
        };
        assert(olds[jo].0@ == k2);
        let j2 = choose|j: int| 0 <= j < olds.len() && olds[j].0@ == k2;
        if j2 != jo {
            assert(false);
        }
        assert(news[j1] == olds[jo]);
    }
}

} // verus!
