//! Small collections keyed by text.
//!
//! Both collections keep their items in insertion order in a vector and never
//! hold the same text twice. Contracts speak of them through their views: a
//! `Set` of texts and a `Map` from texts to values.
use vstd::prelude::*;
use vstd::set_lib::lemma_subset_equality;
use vstd::std_specs::cmp::PartialEqSpecImpl;

verus! {

/// The texts of a sequence of strings, in order.
pub open spec fn texts(items: Seq<String>) -> Seq<Seq<char>> {
    items.map_values(|s: String| s@)
}

/// The key texts of a sequence of entries, in order.
pub open spec fn key_texts<V>(entries: Seq<(String, V)>) -> Seq<Seq<char>> {
    entries.map_values(|e: (String, V)| e.0@)
}

/// The text of a string that may be missing.
pub open spec fn option_text(item: Option<String>) -> Option<Seq<char>> {
    match item {
        Some(text) => Some(text@),
        None => None,
    }
}

/// Whether two string slices hold the same text.
pub fn same_text(a: &str, b: &str) -> (same: bool)
    ensures
        same == (a@ == b@),
{
    a.to_owned() == b.to_owned()
}

/// Position of `needle` among `items`, if it occurs.
fn position_of(items: &Vec<String>, needle: &str) -> (found: Option<usize>)
    ensures
        match found {
            Some(i) => i < items.len() && items[i as int]@ == needle@ && texts(items@)[i as int]
                == needle@ && texts(items@).contains(needle@),
            None => !texts(items@).contains(needle@),
        },
{
    let mut i: usize = 0;
    while i < items.len()
        invariant
            i <= items.len(),
            forall|j: int| 0 <= j < i ==> items[j]@ != needle@,
        decreases items.len() - i,
    {
        if same_text(items[i].as_str(), needle) {
            return Some(i);
        }
        i += 1;
    }
    None
}

/// Position of the entry keyed by `needle`, if there is one.
fn entry_position<V>(entries: &Vec<(String, V)>, needle: &str) -> (found: Option<usize>)
    ensures
        match found {
            Some(i) => i < entries.len() && entries[i as int].0@ == needle@ && key_texts(
                entries@,
            )[i as int] == needle@ && key_texts(entries@).contains(needle@),
            None => !key_texts(entries@).contains(needle@),
        },
{
    let mut i: usize = 0;
    while i < entries.len()
        invariant
            i <= entries.len(),
            forall|j: int| 0 <= j < i ==> entries[j].0@ != needle@,
        decreases entries.len() - i,
    {
        if same_text(entries[i].0.as_str(), needle) {
            return Some(i);
        }
        i += 1;
    }
    None
}

/// A set of texts.
#[derive(Debug)]
pub struct StringSet {
    items: Vec<String>,
}

impl View for StringSet {
    type V = Set<Seq<char>>;

    closed spec fn view(&self) -> Set<Seq<char>> {
        texts(self.items@).to_set()
    }
}

impl StringSet {
    #[verifier::type_invariant]
    spec fn distinct(&self) -> bool {
        texts(self.items@).no_duplicates()
    }

    /// The empty set.
    pub fn new() -> (set: Self)
        ensures
            set@ == Set::<Seq<char>>::empty(),
    {
        StringSet { items: Vec::new() }
    }

    /// The number of texts in the set.
    pub fn len(&self) -> (n: usize)
        ensures
            self@.finite(),
            n == self@.len(),
    {
        proof {
            use_type_invariant(self);
            texts(self.items@).unique_seq_to_set();
        }
        self.items.len()
    }

    /// Whether the set holds nothing.
    pub fn is_empty(&self) -> (empty: bool)
        ensures
            empty == (self@ == Set::<Seq<char>>::empty()),
    {
        proof {
            if self.items@.len() > 0 {
                assert(texts(self.items@)[0] == self.items@[0]@);
                assert(self@.contains(self.items@[0]@));
            } else {
                assert(self@ =~= Set::<Seq<char>>::empty());
            }
        }
        self.items.len() == 0
    }

    /// Whether `item` is in the set.
    pub fn contains(&self, item: &str) -> (found: bool)
        ensures
            found == self@.contains(item@),
    {
        position_of(&self.items, item).is_some()
    }

    /// Adds `item`; answers whether it was new.
    pub fn insert(&mut self, item: String) -> (added: bool)
        ensures
            final(self)@ == old(self)@.insert(item@),
            added == !old(self)@.contains(item@),
    {
        proof {
            use_type_invariant(&*self);
        }
        match position_of(&self.items, item.as_str()) {
            Some(_) => false,
            None => {
                let ghost before = texts(self.items@);
                // The vector is taken out while it changes, so that what is left
                // behind is in order at every step.
                let mut items: Vec<String> = Vec::new();
                core::mem::swap(&mut self.items, &mut items);
                items.push(item);
                proof {
                    assert(texts(items@) =~= before.push(item@));
                    before.lemma_push_to_set_commute(item@);
                }
                self.items = items;
                true
            },
        }
    }

    /// Takes `item` out; answers whether it was there.
    pub fn remove(&mut self, item: &str) -> (removed: bool)
        ensures
            final(self)@ == old(self)@.remove(item@),
            removed == old(self)@.contains(item@),
    {
        proof {
            use_type_invariant(&*self);
        }
        match position_of(&self.items, item) {
            Some(i) => {
                let ghost before = texts(self.items@);
                // The vector is taken out while it changes, so that what is left
                // behind is in order at every step.
                let mut items: Vec<String> = Vec::new();
                core::mem::swap(&mut self.items, &mut items);
                items.remove(i);
                proof {
                    let after = texts(items@);
                    assert(after =~= before.remove(i as int));
                    assert forall|t: Seq<char>| after.to_set().contains(t) <==> before.to_set().remove(
                        item@,
                    ).contains(t) by {
                        if before.contains(t) && t != item@ {
                            let j = choose|j: int| 0 <= j < before.len() && before[j] == t;
                            if j < i {
                                assert(after[j] == t);
                            } else {
                                assert(after[j - 1] == t);
                            }
                        }
                    }
                }
                self.items = items;
                true
            },
            None => false,
        }
    }

    /// The set of the texts of `items`.
    pub fn from_vec(items: Vec<String>) -> (set: Self)
        ensures
            set@ == texts(items@).to_set(),
    {
        let mut set = StringSet::new();
        let mut i: usize = 0;
        while i < items.len()
            invariant
                i <= items.len(),
                set@ == texts(items@).take(i as int).to_set(),
            decreases items.len() - i,
        {
            let ghost seen = texts(items@).take(i as int);
            set.insert(items[i].clone());
            proof {
                assert(texts(items@).take(i + 1) =~= seen.push(items[i as int]@));
                seen.lemma_push_to_set_commute(items[i as int]@);
            }
            i += 1;
        }
        assert(texts(items@).take(items.len() as int) =~= texts(items@));
        set
    }

    /// The texts of the set, each once, oldest first.
    pub fn to_vec(&self) -> (items: Vec<String>)
        ensures
            texts(items@).to_set() == self@,
            texts(items@).no_duplicates(),
    {
        proof {
            use_type_invariant(self);
        }
        let mut out: Vec<String> = Vec::new();
        let mut i: usize = 0;
        while i < self.items.len()
            invariant
                i <= self.items.len(),
                texts(out@) == texts(self.items@).take(i as int),
            decreases self.items.len() - i,
        {
            let ghost done = texts(out@);
            out.push(self.items[i].clone());
            proof {
                assert(texts(out@) =~= done.push(self.items[i as int]@));
            }
            i += 1;
        }
        assert(texts(self.items@).take(self.items.len() as int) =~= texts(self.items@));
        out
    }
}

impl PartialEq for StringSet {
    /// Two sets are equal when they hold the same texts, in whatever order.
    fn eq(&self, other: &StringSet) -> (same: bool) {
        if self.len() != other.len() {
            return false;
        }
        let mut i: usize = 0;
        while i < self.items.len()
            invariant
                i <= self.items.len(),
                forall|j: int| 0 <= j < i ==> other@.contains(#[trigger] texts(self.items@)[j]),
            decreases self.items.len() - i,
        {
            if !other.contains(self.items[i].as_str()) {
                assert(texts(self.items@)[i as int] == self.items[i as int]@);
                return false;
            }
            i += 1;
        }
        proof {
            lemma_subset_equality(self@, other@);
        }
        true
    }
}

impl Eq for StringSet {

}

impl PartialEqSpecImpl for StringSet {
    open spec fn obeys_eq_spec() -> bool {
        true
    }

    open spec fn eq_spec(&self, other: &StringSet) -> bool {
        self@ == other@
    }
}

impl Clone for StringSet {
    fn clone(&self) -> (copy: Self)
        ensures
            copy@ == self@,
    {
        StringSet::from_vec(self.to_vec())
    }
}

/// The map that a sequence of entries with distinct keys stands for.
pub open spec fn map_of<V>(entries: Seq<(String, V)>) -> Map<Seq<char>, V> {
    Map::new(
        |k: Seq<char>| key_texts(entries).contains(k),
        |k: Seq<char>| entries[key_texts(entries).index_of(k)].1,
    )
}

/// With distinct keys, each entry is found in the map under its own key.
pub proof fn lemma_map_of_entry<V>(entries: Seq<(String, V)>, i: int)
    requires
        key_texts(entries).no_duplicates(),
        0 <= i < entries.len(),
    ensures
        map_of(entries).contains_key(entries[i].0@),
        map_of(entries)[entries[i].0@] == entries[i].1,
{
    let keys = key_texts(entries);
    assert(keys[i] == entries[i].0@);
}

/// A map from texts to values.
#[derive(Debug)]
pub struct StringMap<V> {
    entries: Vec<(String, V)>,
}

impl<V> View for StringMap<V> {
    type V = Map<Seq<char>, V>;

    closed spec fn view(&self) -> Map<Seq<char>, V> {
        map_of(self.entries@)
    }
}

impl<V> StringMap<V> {
    #[verifier::type_invariant]
    spec fn distinct(&self) -> bool {
        key_texts(self.entries@).no_duplicates()
    }

    /// The empty map.
    pub fn new() -> (map: Self)
        ensures
            map@ == Map::<Seq<char>, V>::empty(),
    {
        StringMap { entries: Vec::new() }
    }

    /// The number of keys.
    pub fn len(&self) -> (n: usize)
        ensures
            self@.dom().finite(),
            n == self@.len(),
    {
        proof {
            use_type_invariant(self);
            key_texts(self.entries@).unique_seq_to_set();
        }
        self.entries.len()
    }

    /// Whether the map holds nothing.
    pub fn is_empty(&self) -> (empty: bool)
        ensures
            empty == (self@ == Map::<Seq<char>, V>::empty()),
    {
        proof {
            if self.entries@.len() > 0 {
                assert(key_texts(self.entries@)[0] == self.entries@[0].0@);
                assert(self@.contains_key(self.entries@[0].0@));
            } else {
                assert(self@ =~= Map::<Seq<char>, V>::empty());
            }
        }
        self.entries.len() == 0
    }

    /// Whether `key` has a value.
    pub fn contains_key(&self, key: &str) -> (found: bool)
        ensures
            found == self@.contains_key(key@),
    {
        entry_position(&self.entries, key).is_some()
    }

    /// The value under `key`, if there is one.
    pub fn get(&self, key: &str) -> (value: Option<&V>)
        ensures
            match value {
                Some(v) => self@.contains_key(key@) && *v == self@[key@],
                None => !self@.contains_key(key@),
            },
    {
        proof {
            use_type_invariant(self);
        }
        match entry_position(&self.entries, key) {
            Some(i) => Some(&self.entries[i].1),
            None => None,
        }
    }

    /// Puts `value` under `key`, in place of what was there.
    pub fn insert(&mut self, key: String, value: V)
        ensures
            final(self)@ == old(self)@.insert(key@, value),
    {
        proof {
            use_type_invariant(&*self);
        }
        let found = entry_position(&self.entries, key.as_str());
        let ghost before = self.entries@;
        // The vector is taken out while it changes, so that what is left
        // behind is in order at every step.
        let mut entries: Vec<(String, V)> = Vec::new();
        core::mem::swap(&mut self.entries, &mut entries);
        match found {
            Some(i) => {
                entries.set(i, (key, value));
                proof {
                    assert(key_texts(entries@) =~= key_texts(before));
                }
            },
            None => {
                entries.push((key, value));
                proof {
                    assert(key_texts(entries@) =~= key_texts(before).push(key@));
                }
            },
        }
        proof {
            let after = entries@;
            assert forall|k: Seq<char>| #[trigger]
                map_of(after).contains_key(k) <==> map_of(before).insert(key@, value).contains_key(
                    k,
                ) by {
                if key_texts(before).contains(k) {
                    let j = choose|j: int| 0 <= j < before.len() && key_texts(before)[j] == k;
                    assert(key_texts(after)[j] == k);
                }
                if k == key@ && found is None {
                    assert(key_texts(after)[before.len() as int] == k);
                }
            }
        }
        self.entries = entries;
    }

    /// Takes `key` and its value out; answers whether it was there.
    pub fn remove(&mut self, key: &str) -> (removed: bool)
        ensures
            final(self)@ == old(self)@.remove(key@),
            removed == old(self)@.contains_key(key@),
    {
        proof {
            use_type_invariant(&*self);
        }
        match entry_position(&self.entries, key) {
            Some(i) => {
                let ghost before = self.entries@;
                // The vector is taken out while it changes, so that what is left
                // behind is in order at every step.
                let mut entries: Vec<(String, V)> = Vec::new();
                core::mem::swap(&mut self.entries, &mut entries);
                entries.remove(i);
                proof {
                    let after = entries@;
                    assert(key_texts(after) =~= key_texts(before).remove(i as int));
                    assert forall|k: Seq<char>| #[trigger]
                        map_of(after).contains_key(k) <==> map_of(before).remove(key@).contains_key(
                            k,
                        ) by {
                        if key_texts(before).contains(k) && k != key@ {
                            let j = choose|j: int|
                                0 <= j < before.len() && key_texts(before)[j] == k;
                            if j < i {
                                assert(key_texts(after)[j] == k);
                            } else {
                                assert(key_texts(after)[j - 1] == k);
                            }
                        }
                    }
                }
                self.entries = entries;
                true
            },
            None => false,
        }
    }

    /// The keys, as a set.
    pub fn key_set(&self) -> (keys: StringSet)
        ensures
            keys@ == self@.dom(),
    {
        let mut keys = StringSet::new();
        let mut i: usize = 0;
        while i < self.entries.len()
            invariant
                i <= self.entries.len(),
                keys@ == key_texts(self.entries@).take(i as int).to_set(),
            decreases self.entries.len() - i,
        {
            let ghost seen = key_texts(self.entries@).take(i as int);
            keys.insert(self.entries[i].0.clone());
            proof {
                assert(key_texts(self.entries@).take(i + 1) =~= seen.push(self.entries[i as int].0@));
                seen.lemma_push_to_set_commute(self.entries[i as int].0@);
            }
            i += 1;
        }
        proof {
            assert(key_texts(self.entries@).take(self.entries.len() as int) =~= key_texts(
                self.entries@,
            ));
        }
        keys
    }

    /// The entries, each key once, oldest first.
    pub fn into_entries(self) -> (entries: Vec<(String, V)>)
        ensures
            key_texts(entries@).no_duplicates(),
            map_of(entries@) == self@,
    {
        proof {
            use_type_invariant(&self);
        }
        self.entries
    }
}

} // verus!
