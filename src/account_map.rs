use vstd::prelude::*;

verus! {

/// Whether key `k` stands at position `i` of `entries`.
pub open spec fn key_at<V>(entries: Seq<(String, V)>, i: int, k: Seq<char>) -> bool {
    0 <= i < entries.len() && entries[i].0@ == k
}

/// The map that a list of entries with distinct keys stands for.
pub open spec fn entries_map<V>(entries: Seq<(String, V)>) -> Map<Seq<char>, V> {
    Map::new(
        |k: Seq<char>| exists|i: int| key_at(entries, i, k),
        |k: Seq<char>| entries[choose|i: int| key_at(entries, i, k)].1,
    )
}

/// No key occurs twice in `entries`.
pub open spec fn keys_distinct<V>(entries: Seq<(String, V)>) -> bool {
    forall|i: int, j: int|
        0 <= i < entries.len() && 0 <= j < entries.len() && #[trigger] entries[i].0@
            == #[trigger] entries[j].0@ ==> i == j
}

/// A finite map from account identifiers to values, kept as a list of
/// entries whose keys are distinct.
#[derive(Debug)]
pub struct AccountMap<V> {
    entries: Vec<(String, V)>,
}

impl<V> View for AccountMap<V> {
    type V = Map<Seq<char>, V>;

    closed spec fn view(&self) -> Map<Seq<char>, V> {
        entries_map(self.entries@)
    }
}

/// In a list with distinct keys, the entry that holds a key gives its value.
proof fn lemma_value_at<V>(entries: Seq<(String, V)>, i: int)
    requires
        keys_distinct(entries),
        0 <= i < entries.len(),
    ensures
        entries_map(entries).contains_key(entries[i].0@),
        entries_map(entries)[entries[i].0@] == entries[i].1,
{
    let k = entries[i].0@;
    assert(key_at(entries, i, k));
    let j = choose|j: int| key_at(entries, j, k);
    assert(entries[j].0@ == entries[i].0@);
}

impl<V> AccountMap<V> {
    #[verifier::type_invariant]
    spec fn inv(self) -> bool {
        keys_distinct(self.entries@)
    }
}

impl<V: Copy> AccountMap<V> {
    /// An empty map.
    pub fn new() -> (r: Self)
        ensures
            r@ == Map::<Seq<char>, V>::empty(),
    {
        let r = AccountMap { entries: Vec::new() };
        assert(r@ =~= Map::<Seq<char>, V>::empty());
        r
    }

    /// The position of `key` among the entries, if it is there.
    fn find(&self, key: &String) -> (r: Option<usize>)
        ensures
            match r {
                Some(i) => key_at(self.entries@, i as int, key@),
                None => !self@.contains_key(key@),
            },
    {
        let mut i: usize = 0;
        while i < self.entries.len()
            invariant
                i <= self.entries@.len(),
                forall|j: int| 0 <= j < i ==> !key_at(self.entries@, j, key@),
            decreases self.entries@.len() - i,
        {
            if self.entries[i].0 == *key {
                return Some(i);
            }
            i = i + 1;
        }
        None
    }

    /// The value stored under `key`, if any.
    pub fn get(&self, key: &String) -> (r: Option<V>)
        ensures
            r == (if self@.contains_key(key@) {
                Some(self@[key@])
            } else {
                None
            }),
    {
        proof {
            use_type_invariant(self);
        }
        match self.find(key) {
            Some(i) => {
                proof {
                    lemma_value_at(self.entries@, i as int);
                }
                Some(self.entries[i].1)
            },
            None => None,
        }
    }

    /// Stores `value` under `key`, replacing what was there.
    pub fn insert(&mut self, key: &String, value: V)
        ensures
            final(self)@ == old(self)@.insert(key@, value),
    {
        proof {
            use_type_invariant(&*self);
        }
        let ghost before = self.entries@;
        match self.find(key) {
            Some(i) => {
                let entry = (key.clone(), value);
                let ghost after = before.update(i as int, entry);
                proof {
                    assert forall|a: int, b: int|
                        0 <= a < after.len() && 0 <= b < after.len() && #[trigger] after[a].0@
                            == #[trigger] after[b].0@ implies a == b by {
                        assert(before[a].0@ == after[a].0@);
                        assert(before[b].0@ == after[b].0@);
                    }
                    assert forall|k: Seq<char>|
                        entries_map(after).contains_key(k) == entries_map(
                            before,
                        ).insert(key@, value).contains_key(k) by {
                        if exists|j: int| key_at(before, j, k) {
                            let j = choose|j: int| key_at(before, j, k);
                            assert(key_at(after, j, k));
                        }
                        if exists|j: int| key_at(after, j, k) {
                            let j = choose|j: int| key_at(after, j, k);
                            assert(key_at(before, j, k));
                        }
                    }
                    assert forall|k: Seq<char>| #[trigger]
                        entries_map(after).contains_key(k) implies entries_map(after)[k]
                        == entries_map(before).insert(key@, value)[k] by {
                        let j = choose|j: int| key_at(after, j, k);
                        lemma_value_at(after, j);
                        if j != i {
                            lemma_value_at(before, j);
                        }
                    }
                    assert(entries_map(after) =~= entries_map(before).insert(key@, value));
                }
                let mut entries = Vec::new();
                std::mem::swap(&mut entries, &mut self.entries);
                entries.set(i, entry);
                self.entries = entries;
            },
            None => {
                let entry = (key.clone(), value);
                let ghost after = before.push(entry);
                proof {
                    assert forall|a: int, b: int|
                        0 <= a < after.len() && 0 <= b < after.len() && #[trigger] after[a].0@
                            == #[trigger] after[b].0@ implies a == b by {
                        if a < before.len() && b < before.len() {
                            assert(before[a].0@ == before[b].0@);
                        } else if a < before.len() {
                            assert(key_at(before, a, key@));
                        } else if b < before.len() {
                            assert(key_at(before, b, key@));
                        }
                    }
                    assert forall|k: Seq<char>|
                        entries_map(after).contains_key(k) == entries_map(
                            before,
                        ).insert(key@, value).contains_key(k) by {
                        if exists|j: int| key_at(before, j, k) {
                            let j = choose|j: int| key_at(before, j, k);
                            assert(key_at(after, j, k));
                        }
                        if k == key@ {
                            assert(key_at(after, before.len() as int, k));
                        }
                        if exists|j: int| key_at(after, j, k) {
                            let j = choose|j: int| key_at(after, j, k);
                            if j < before.len() {
                                assert(key_at(before, j, k));
                            }
                        }
                    }
                    assert forall|k: Seq<char>| #[trigger]
                        entries_map(after).contains_key(k) implies entries_map(after)[k]
                        == entries_map(before).insert(key@, value)[k] by {
                        let j = choose|j: int| key_at(after, j, k);
                        lemma_value_at(after, j);
                        if j < before.len() {
                            lemma_value_at(before, j);
                        }
                    }
                    assert(entries_map(after) =~= entries_map(before).insert(key@, value));
                }
                let mut entries = Vec::new();
                std::mem::swap(&mut entries, &mut self.entries);
                entries.push(entry);
                self.entries = entries;
            },
        }
    }
}

} // verus!
