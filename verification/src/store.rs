//! The in-memory key-value store: a hash map from string keys to string
//! values, together with a dense list of its keys so that the keys can be
//! listed without walking the hash map.
use vstd::prelude::*;
use vstd::hash_map::StringHashMap;

verus! {

broadcast use vstd::hash_map::group_hash_map_axioms;

/// A map from string keys to string values.
///
/// Each entry of `entries` holds the value of its key and the position of
/// that key in `keys`; `keys` holds every key of `entries` exactly once.
/// Lookups, inserts and removals touch a constant number of entries.
pub struct KvStore {
    entries: StringHashMap<(String, usize)>,
    keys: Vec<String>,
}

impl View for KvStore {
    type V = Map<Seq<char>, Seq<char>>;

    /// The store as a mathematical map from keys to values.
    closed spec fn view(&self) -> Map<Seq<char>, Seq<char>> {
        self.entries@.map_values(|entry: (String, usize)| entry.0@)
    }
}

impl KvStore {
    /// The positions recorded in `entries` and the contents of `keys`
    /// describe the same one-to-one numbering of the keys.
    #[verifier::type_invariant]
    closed spec fn well_formed(self) -> bool {
        &&& forall|i: int|
            #![trigger self.keys@[i]]
            0 <= i < self.keys@.len() ==> {
                &&& self.entries@.contains_key(self.keys@[i]@)
                &&& self.entries@[self.keys@[i]@].1 == i
            }
        &&& forall|k: Seq<char>|
            #[trigger] self.entries@.contains_key(k) ==> {
                &&& self.entries@[k].1 < self.keys@.len()
                &&& self.keys@[self.entries@[k].1 as int]@ == k
            }
    }

    /// Creates an empty store.
    pub fn new() -> (store: Self)
        ensures
            store@ == Map::<Seq<char>, Seq<char>>::empty(),
    {
        let store = KvStore { entries: StringHashMap::new(), keys: Vec::new() };
        assert(store@ =~= Map::<Seq<char>, Seq<char>>::empty());
        store
    }

    /// Whether `key` has a value in the store.
    pub fn contains_key(&self, key: &str) -> (found: bool)
        ensures
            found == self@.contains_key(key@),
    {
        self.entries.contains_key(key)
    }

    /// The value of `key`, if it has one.
    pub fn get(&self, key: &str) -> (value: Option<&String>)
        ensures
            match value {
                Some(v) => self@.contains_key(key@) && v@ == self@[key@],
                None => !self@.contains_key(key@),
            },
    {
        match self.entries.get(key) {
            Some(entry) => Some(&entry.0),
            None => None,
        }
    }

    /// Sets the value of `key` to `value`, adding the key if it is new.
    pub fn insert(&mut self, key: String, value: String)
        ensures
            final(self)@ == old(self)@.insert(key@, value@),
    {
        proof { use_type_invariant(&*self); }
        let mut taken = KvStore::new();
        std::mem::swap(&mut taken, self);
        let KvStore { mut entries, mut keys } = taken;
        let ghost old_entries = entries@;
        let ghost old_keys = keys@;
        let position: usize = match entries.get(key.as_str()) {
            Some(entry) => entry.1,
            None => {
                let position = keys.len();
                keys.push(key.clone());
                position
            },
        };
        entries.insert(key, (value, position));
        proof {
            assert forall|k: Seq<char>| #[trigger] entries@.contains_key(k) implies {
                &&& entries@[k].1 < keys@.len()
                &&& keys@[entries@[k].1 as int]@ == k
            } by {
                if k != key@ {
                    assert(old_entries.contains_key(k));
                }
            }
            assert forall|i: int| #![trigger keys@[i]] 0 <= i < keys@.len() implies {
                &&& entries@.contains_key(keys@[i]@)
                &&& entries@[keys@[i]@].1 == i
            } by {
                if i < old_keys.len() {
                    assert(old_keys[i] == keys@[i]);
                }
            }
        }
        *self = KvStore { entries, keys };
        assert(self@ =~= old(self)@.insert(key@, value@));
    }

    /// Removes `key` and its value; returns whether the key was present.
    /// The last listed key takes the place of the removed one.
    pub fn remove(&mut self, key: &str) -> (removed: bool)
        ensures
            removed == old(self)@.contains_key(key@),
            final(self)@ == old(self)@.remove(key@),
    {
        proof { use_type_invariant(&*self); }
        let position: usize = match self.entries.get(key) {
            Some(entry) => entry.1,
            None => {
                assert(self@ =~= old(self)@.remove(key@));
                return false;
            },
        };
        let mut taken = KvStore::new();
        std::mem::swap(&mut taken, self);
        let KvStore { mut entries, mut keys } = taken;
        let ghost old_entries = entries@;
        let ghost old_keys = keys@;
        entries.remove(key);
        let _gone = keys.swap_remove(position);
        if position < keys.len() {
            // The key that was last now stands at `position`.
            let moved = keys[position].clone();
            let value = match entries.get(moved.as_str()) {
                Some(entry) => entry.0.clone(),
                None => {
                    assert(old_keys[old_keys.len() - 1] == keys@[position as int]);
                    assert(false);
                    String::new()
                },
            };
            entries.insert(moved, (value, position));
        }
        proof {
            assert forall|k: Seq<char>| #[trigger] entries@.contains_key(k) implies {
                &&& entries@[k].1 < keys@.len()
                &&& keys@[entries@[k].1 as int]@ == k
            } by {
                assert(old_entries.contains_key(k));
                let p = old_entries[k].1;
                if p != old_keys.len() - 1 {
                    assert(old_keys[p as int] == keys@[p as int]);
                }
            }
            assert forall|i: int| #![trigger keys@[i]] 0 <= i < keys@.len() implies {
                &&& entries@.contains_key(keys@[i]@)
                &&& entries@[keys@[i]@].1 == i
            } by {
                if i != position {
                    assert(old_keys[i] == keys@[i]);
                }
            }
        }
        *self = KvStore { entries, keys };
        assert(self@ =~= old(self)@.remove(key@));
        true
    }

    /// Every key of the store, each exactly once, in an order that the
    /// store does not promise.
    pub fn keys(&self) -> (listed: Vec<String>)
        ensures
            listed@.map_values(|k: String| k@).to_set() == self@.dom(),
            listed@.map_values(|k: String| k@).no_duplicates(),
    {
        proof { use_type_invariant(&*self); }
        let mut listed: Vec<String> = Vec::new();
        let mut i: usize = 0;
        while i < self.keys.len()
            invariant
                i <= self.keys@.len(),
                listed@.len() == i,
                forall|j: int| 0 <= j < i ==> #[trigger] listed@[j] == self.keys@[j],
            decreases self.keys@.len() - i,
        {
            listed.push(self.keys[i].clone());
            i += 1;
        }
        proof {
            let shown = listed@.map_values(|k: String| k@);
            assert forall|k: Seq<char>| shown.to_set().contains(k) <==> self@.dom().contains(k) by {
                if self@.dom().contains(k) {
                    let p = self.entries@[k].1 as int;
                    assert(shown[p] == k);
                }
                if shown.to_set().contains(k) {
                    let j = choose|j: int| 0 <= j < shown.len() && shown[j] == k;
                    assert(listed@[j] == self.keys@[j]);
                }
            }
            assert(shown.to_set() =~= self@.dom());
            assert forall|a: int, b: int| 0 <= a < shown.len() && 0 <= b < shown.len() && a != b
                implies shown[a] != shown[b] by {
                assert(listed@[a] == self.keys@[a]);
                assert(listed@[b] == self.keys@[b]);
            }
        }
        listed
    }
}

} // verus!
