//! The processing state that keeps events from being handled twice.
use vstd::prelude::*;

verus! {

/// A map from text keys to values, kept as a list of entries in which no key
/// occurs twice.
pub struct StrMap<V> {
    entries: Vec<(String, V)>,
}

/// Position of an entry with key `k` in `entries`.
pub open spec fn has_key_at<V>(entries: Seq<(String, V)>, k: Seq<char>, i: int) -> bool {
    0 <= i < entries.len() && entries[i].0@ == k
}

/// No key occurs twice in `entries`.
pub open spec fn keys_distinct<V>(entries: Seq<(String, V)>) -> bool {
    forall|i: int, j: int|
        0 <= i < entries.len() && 0 <= j < entries.len() && i != j ==> entries[i].0@
            != entries[j].0@
}

/// The map that a list of entries with distinct keys stands for.
pub open spec fn map_of_entries<V>(entries: Seq<(String, V)>) -> Map<Seq<char>, V> {
    Map::new(
        |k: Seq<char>| exists|i: int| has_key_at(entries, k, i),
        |k: Seq<char>| entries[choose|i: int| has_key_at(entries, k, i)].1,
    )
}

proof fn lemma_map_of_entries_at<V>(entries: Seq<(String, V)>, i: int)
    requires
        keys_distinct(entries),
        0 <= i < entries.len(),
    ensures
        map_of_entries(entries).contains_key(entries[i].0@),
        map_of_entries(entries)[entries[i].0@] == entries[i].1,
{
    let k = entries[i].0@;
    assert(has_key_at(entries, k, i));
    let j = choose|j: int| has_key_at(entries, k, j);
    assert(j == i);
}

impl<V> View for StrMap<V> {
    type V = Map<Seq<char>, V>;

    closed spec fn view(&self) -> Map<Seq<char>, V> {
        map_of_entries(self.entries@)
    }
}

impl<V> StrMap<V> {
    #[verifier::type_invariant]
    closed spec fn inv(self) -> bool {
        keys_distinct(self.entries@)
    }

    /// An empty map.
    pub fn new() -> (m: Self)
        ensures
            m@ == Map::<Seq<char>, V>::empty(),
    {
        let m = StrMap { entries: Vec::new() };
        assert(m@ =~= Map::<Seq<char>, V>::empty());
        m
    }

    /// Number of keys.
    pub fn len(&self) -> (n: usize)
        ensures
            n == self@.dom().len(),
    {
        proof {
            use_type_invariant(self);
            self.lemma_dom_len();
        }
        self.entries.len()
    }

    proof fn lemma_dom_len(&self)
        requires
            keys_distinct(self.entries@),
        ensures
            self@.dom().len() == self.entries@.len(),
            self@.dom().finite(),
    {
        let es = self.entries@;
        let keys = es.map_values(|e: (String, V)| e.0@);
        assert forall|i: int, j: int|
            0 <= i < keys.len() && 0 <= j < keys.len() && i != j implies keys[i] != keys[j] by {}
        assert(keys.no_duplicates());
        keys.unique_seq_to_set();
        assert(self@.dom() =~= keys.to_set()) by {
            assert forall|k: Seq<char>| self@.dom().contains(k) implies keys.to_set().contains(k) by {
                let i = choose|i: int| has_key_at(es, k, i);
                assert(keys[i] == k);
            }
            assert forall|k: Seq<char>| keys.to_set().contains(k) implies self@.dom().contains(k) by {
                let i = choose|i: int| 0 <= i < keys.len() && keys[i] == k;
                assert(has_key_at(es, k, i));
            }
        }
    }

    /// Position of the entry with key `k`, if any.
    fn find(&self, k: &String) -> (r: Option<usize>)
        ensures
            match r {
                Some(i) => has_key_at(self.entries@, k@, i as int),
                None => !self@.contains_key(k@),
            },
    {
        let mut i: usize = 0;
        while i < self.entries.len()
            invariant
                i <= self.entries@.len(),
                forall|j: int| 0 <= j < i ==> self.entries@[j].0@ != k@,
            decreases self.entries.len() - i,
        {
            if self.entries[i].0 == *k {
                return Some(i);
            }
            i = i + 1;
        }
        None
    }

    /// Whether `k` is a key.
    pub fn contains_key(&self, k: &String) -> (r: bool)
        ensures
            r == self@.contains_key(k@),
    {
        proof {
            use_type_invariant(self);
        }
        match self.find(k) {
            Some(i) => {
                proof {
                    lemma_map_of_entries_at(self.entries@, i as int);
                }
                true
            },
            None => false,
        }
    }

    /// The value of `k`, if it is a key.
    pub fn get(&self, k: &String) -> (r: Option<&V>)
        ensures
            match r {
                Some(v) => self@.contains_key(k@) && *v == self@[k@],
                None => !self@.contains_key(k@),
            },
    {
        proof {
            use_type_invariant(self);
        }
        match self.find(k) {
            Some(i) => {
                proof {
                    lemma_map_of_entries_at(self.entries@, i as int);
                }
                Some(&self.entries[i].1)
            },
            None => None,
        }
    }

    /// Sets the value of `k`.
    pub fn insert(&mut self, k: String, v: V)
        ensures
            final(self)@ == old(self)@.insert(k@, v),
    {
        proof {
            use_type_invariant(&*self);
        }
        let ghost old_entries = self.entries@;
        let ghost kv = k@;
        let found = self.find(&k);
        let mut entries = Vec::new();
        std::mem::swap(&mut entries, &mut self.entries);
        match found {
            Some(i) => {
                entries.set(i, (k, v));
            },
            None => {
                entries.push((k, v));
            },
        }
        let ghost es = entries@;
        proof {
            assert(keys_distinct(es)) by {
                assert forall|a: int, b: int|
                    0 <= a < es.len() && 0 <= b < es.len() && a != b implies es[a].0@
                    != es[b].0@ by {
                    if found is None {
                        if a < old_entries.len() && b < old_entries.len() {
                        } else if a == old_entries.len() {
                            assert(!has_key_at(old_entries, kv, b));
                        } else {
                            assert(!has_key_at(old_entries, kv, a));
                        }
                    }
                }
            }
            let target = map_of_entries(old_entries).insert(kv, v);
            assert forall|key: Seq<char>|
                map_of_entries(es).contains_key(key) <==> target.contains_key(key) by {
                if target.contains_key(key) {
                    if key == kv {
                        let i: int = match found {
                            Some(i) => i as int,
                            None => old_entries.len() as int,
                        };
                        assert(has_key_at(es, key, i));
                    } else {
                        let j = choose|j: int| has_key_at(old_entries, key, j);
                        assert(has_key_at(es, key, j));
                    }
                }
                if map_of_entries(es).contains_key(key) {
                    let j = choose|j: int| has_key_at(es, key, j);
                    if key != kv {
                        assert(has_key_at(old_entries, key, j));
                    }
                }
            }
            assert forall|key: Seq<char>| #[trigger]
                map_of_entries(es).contains_key(key) implies map_of_entries(es)[key]
                == target[key] by {
                let j = choose|j: int| has_key_at(es, key, j);
                lemma_map_of_entries_at(es, j);
                if key != kv {
                    assert(has_key_at(old_entries, key, j));
                    lemma_map_of_entries_at(old_entries, j);
                } else {
                    let i: int = match found {
                        Some(i) => i as int,
                        None => old_entries.len() as int,
                    };
                    assert(es[i].0@ == kv);
                    assert(j == i);
                }
            }
            assert(map_of_entries(es) =~= target);
        }
        self.entries = entries;
    }

    /// Removes `k`, if it is a key.
    pub fn remove(&mut self, k: &String)
        ensures
            final(self)@ == old(self)@.remove(k@),
    {
        proof {
            use_type_invariant(&*self);
        }
        let ghost old_entries = self.entries@;
        match self.find(k) {
            Some(i) => {
                let mut entries = Vec::new();
                std::mem::swap(&mut entries, &mut self.entries);
                entries.remove(i);
                let ghost es = entries@;
                proof {
                    assert forall|a: int| 0 <= a < es.len() implies #[trigger] es[a] == (if a
                        < i {
                        old_entries[a]
                    } else {
                        old_entries[a + 1]
                    }) by {}
                    assert(keys_distinct(es)) by {
                        assert forall|a: int, b: int|
                            0 <= a < es.len() && 0 <= b < es.len() && a != b implies es[a].0@
                            != es[b].0@ by {
                            let oa = if a < i {
                                a
                            } else {
                                a + 1
                            };
                            let ob = if b < i {
                                b
                            } else {
                                b + 1
                            };
                            assert(es[a] == old_entries[oa]);
                            assert(es[b] == old_entries[ob]);
                        }
                    }
                    let target = map_of_entries(old_entries).remove(k@);
                    assert forall|key: Seq<char>|
                        map_of_entries(es).contains_key(key) <==> target.contains_key(key) by {
                        if target.contains_key(key) {
                            let j = choose|j: int| has_key_at(old_entries, key, j);
                            assert(j != i);
                            let nj = if j < i {
                                j
                            } else {
                                j - 1
                            };
                            assert(es[nj] == old_entries[j]);
                            assert(has_key_at(es, key, nj));
                        }
                        if map_of_entries(es).contains_key(key) {
                            let j = choose|j: int| has_key_at(es, key, j);
                            let oj = if j < i {
                                j
                            } else {
                                j + 1
                            };
                            assert(es[j] == old_entries[oj]);
                            assert(has_key_at(old_entries, key, oj));
                            assert(oj != i);
                        }
                    }
                    assert forall|key: Seq<char>| #[trigger]
                        map_of_entries(es).contains_key(key) implies map_of_entries(es)[key]
                        == target[key] by {
                        let j = choose|j: int| has_key_at(es, key, j);
                        lemma_map_of_entries_at(es, j);
                        let oj = if j < i {
                            j
                        } else {
                            j + 1
                        };
                        assert(es[j] == old_entries[oj]);
                        lemma_map_of_entries_at(old_entries, oj);
                    }
                    assert(map_of_entries(es) =~= target);
                }
                self.entries = entries;
            },
            None => {
                assert(old(self)@.remove(k@) =~= old(self)@);
            },
        }
    }

    /// The entries, each key once, in no particular order.
    pub fn entries(&self) -> (r: &Vec<(String, V)>)
        ensures
            keys_distinct(r@),
            self@ == map_of_entries(r@),
    {
        proof {
            use_type_invariant(self);
        }
        &self.entries
    }
}

/// What was last seen of a pull request's feedback.
pub struct PrCursor {
    pub last_head_sha: String,
    pub last_comment_id: u64,
    pub last_review_id: u64,
    pub last_updated: String,
}

impl PrCursor {
    /// A copy of the cursor.
    pub fn duplicate(&self) -> (c: Self)
        ensures
            c == *self,
    {
        PrCursor {
            last_head_sha: self.last_head_sha.clone(),
            last_comment_id: self.last_comment_id,
            last_review_id: self.last_review_id,
            last_updated: self.last_updated.clone(),
        }
    }
}

/// What was last seen of the comments on an issue of the bot.
pub struct IssueCursor {
    pub last_comment_id: u64,
    pub last_updated: String,
}

/// Everything the bot has already handled, keyed by thread or comment. The
/// values of the `processed_*` maps are the times they were recorded.
pub struct State {
    pub processed_issues: StrMap<String>,
    pub pr_cursors: StrMap<PrCursor>,
    pub processed_mentions: StrMap<String>,
    pub issue_cursors: StrMap<IssueCursor>,
    pub processed_health: StrMap<String>,
}

impl State {
    /// A state in which nothing has been handled.
    pub fn new() -> (s: Self)
        ensures
            s.processed_issues@ == Map::<Seq<char>, String>::empty(),
            s.pr_cursors@ == Map::<Seq<char>, PrCursor>::empty(),
            s.processed_mentions@ == Map::<Seq<char>, String>::empty(),
            s.issue_cursors@ == Map::<Seq<char>, IssueCursor>::empty(),
            s.processed_health@ == Map::<Seq<char>, String>::empty(),
    {
        State {
            processed_issues: StrMap::new(),
            pr_cursors: StrMap::new(),
            processed_mentions: StrMap::new(),
            issue_cursors: StrMap::new(),
            processed_health: StrMap::new(),
        }
    }
}

} // verus!
