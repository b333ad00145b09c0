//! A map from strings to values, kept as a list in which no key occurs twice
//! and a hash map that tells where in the list each key stands.
//!
//! The registry keeps its sessions, and each session its responses, in a
//! [`KeyedList`]. Its view is a `Map` from the keys' characters to the values.
//! The list can be walked entry by entry; the hash map finds a key without
//! walking it.

use vstd::hash_map::StringHashMap;
use vstd::prelude::*;

verus! {

/// One entry of a [`KeyedList`].
pub struct Slot<V> {
    pub key: String,
    pub value: V,
}

/// The keys of `slots`, in the order of the list.
pub open spec fn key_seq<V>(slots: Seq<Slot<V>>) -> Seq<Seq<char>> {
    Seq::new(slots.len(), |i: int| slots[i].key@)
}

/// The map that a list of slots with distinct keys stands for.
pub open spec fn assoc<V>(slots: Seq<Slot<V>>) -> Map<Seq<char>, V> {
    Map::new(
        |k: Seq<char>| key_seq(slots).contains(k),
        |k: Seq<char>| slots[key_seq(slots).index_of(k)].value,
    )
}

/// The entries of `slots` as pairs of a key and a value.
pub open spec fn pair_seq<V>(slots: Seq<Slot<V>>) -> Seq<(Seq<char>, V)> {
    Seq::new(slots.len(), |i: int| (slots[i].key@, slots[i].value))
}

/// `entries` lists the map `m`: no key occurs twice in it, each of its pairs
/// is a pair of `m`, and every key of `m` occurs in it.
pub open spec fn lists<V>(entries: Seq<(Seq<char>, V)>, m: Map<Seq<char>, V>) -> bool {
    &&& forall|i: int, j: int|
        0 <= i < entries.len() && 0 <= j < entries.len() && i != j ==> entries[i].0 != entries[j].0
    &&& forall|i: int|
        0 <= i < entries.len() ==> m.contains_key(#[trigger] entries[i].0) && m[entries[i].0]
            == entries[i].1
    &&& forall|k: Seq<char>| #[trigger]
        m.contains_key(k) ==> exists|i: int| 0 <= i < entries.len() && entries[i].0 == k
}

/// The slot at `i` is found again under its key.
pub proof fn lemma_assoc_at<V>(slots: Seq<Slot<V>>, i: int)
    requires
        key_seq(slots).no_duplicates(),
        0 <= i < slots.len(),
    ensures
        assoc(slots).contains_key(slots[i].key@),
        assoc(slots)[slots[i].key@] == slots[i].value,
{
    let keys = key_seq(slots);
    assert(keys[i] == slots[i].key@);
    assert(keys.contains(slots[i].key@));
    let j = keys.index_of(slots[i].key@);
    assert(0 <= j < keys.len() && keys[j] == slots[i].key@);
}

/// Every key of the map is the key of some slot.
pub proof fn lemma_assoc_key<V>(slots: Seq<Slot<V>>, k: Seq<char>)
    requires
        assoc(slots).contains_key(k),
    ensures
        exists|i: int| 0 <= i < slots.len() && slots[i].key@ == k,
{
    let keys = key_seq(slots);
    assert(keys.contains(k));
    let i = keys.index_of(k);
    assert(0 <= i < slots.len() && slots[i].key@ == k);
}

/// The pairs of a list with distinct keys list its map.
pub proof fn lemma_pairs_list_assoc<V>(slots: Seq<Slot<V>>)
    requires
        key_seq(slots).no_duplicates(),
    ensures
        lists(pair_seq(slots), assoc(slots)),
{
    let entries = pair_seq(slots);
    let keys = key_seq(slots);
    assert forall|i: int, j: int|
        0 <= i < entries.len() && 0 <= j < entries.len() && i != j implies entries[i].0
        != entries[j].0 by {
        assert(keys[i] == entries[i].0 && keys[j] == entries[j].0);
    }
    assert forall|i: int| 0 <= i < entries.len() implies assoc(slots).contains_key(
        #[trigger] entries[i].0,
    ) && assoc(slots)[entries[i].0] == entries[i].1 by {
        lemma_assoc_at(slots, i);
    }
    assert forall|k: Seq<char>| #[trigger] assoc(slots).contains_key(k) implies exists|i: int|
        0 <= i < entries.len() && entries[i].0 == k by {
        lemma_assoc_key(slots, k);
        let i = choose|i: int| 0 <= i < slots.len() && slots[i].key@ == k;
        assert(entries[i].0 == k);
    }
}

/// A list with distinct keys has as many slots as its map has keys.
pub proof fn lemma_assoc_len<V>(slots: Seq<Slot<V>>)
    requires
        key_seq(slots).no_duplicates(),
    ensures
        assoc(slots).dom().finite(),
        assoc(slots).len() == slots.len(),
{
    let keys = key_seq(slots);
    assert(assoc(slots).dom() =~= keys.to_set());
    keys.unique_seq_to_set();
    vstd::seq_lib::seq_to_set_is_finite(keys);
}

/// Appending a slot under a new key inserts it into the map.
pub proof fn lemma_assoc_push<V>(slots: Seq<Slot<V>>, slot: Slot<V>)
    requires
        key_seq(slots).no_duplicates(),
        !assoc(slots).contains_key(slot.key@),
    ensures
        key_seq(slots.push(slot)).no_duplicates(),
        assoc(slots.push(slot)) == assoc(slots).insert(slot.key@, slot.value),
{
    let grown = slots.push(slot);
    let keys = key_seq(slots);
    let grown_keys = key_seq(grown);
    assert forall|i: int, j: int|
        0 <= i < grown_keys.len() && 0 <= j < grown_keys.len() && i != j implies grown_keys[i]
        != grown_keys[j] by {
        if i < slots.len() {
            assert(keys[i] == grown_keys[i]);
        }
        if j < slots.len() {
            assert(keys[j] == grown_keys[j]);
        }
    }
    let expected = assoc(slots).insert(slot.key@, slot.value);
    assert forall|k: Seq<char>| expected.contains_key(k) implies #[trigger] assoc(
        grown,
    ).contains_key(k) && assoc(grown)[k] == expected[k] by {
        if k == slot.key@ {
            lemma_assoc_at(grown, slots.len() as int);
        } else {
            lemma_assoc_key(slots, k);
            let i = choose|i: int| 0 <= i < slots.len() && slots[i].key@ == k;
            lemma_assoc_at(slots, i);
            lemma_assoc_at(grown, i);
        }
    }
    assert forall|k: Seq<char>| assoc(grown).contains_key(k) implies #[trigger] expected.contains_key(
        k,
    ) by {
        lemma_assoc_key(grown, k);
        let i = choose|i: int| 0 <= i < grown.len() && grown[i].key@ == k;
        if i < slots.len() {
            lemma_assoc_at(slots, i);
        }
    }
    assert(assoc(grown) =~= expected);
}

/// Moving the last slot to place `i` and dropping the last place removes the
/// key that stood at `i` from the map.
pub proof fn lemma_assoc_swap_remove<V>(slots: Seq<Slot<V>>, i: int)
    requires
        key_seq(slots).no_duplicates(),
        0 <= i < slots.len(),
    ensures
        key_seq(slots.update(i, slots.last()).drop_last()).no_duplicates(),
        assoc(slots.update(i, slots.last()).drop_last()) == assoc(slots).remove(slots[i].key@),
{
    let rest = slots.update(i, slots.last()).drop_last();
    let keys = key_seq(slots);
    let rest_keys = key_seq(rest);
    let last = slots.len() - 1;
    // Where each slot of `rest` stood in `slots`.
    let origin = |j: int| if j == i { last } else { j };
    assert forall|j: int| 0 <= j < rest.len() implies rest[j] == slots[origin(j)] && rest_keys[j]
        == keys[origin(j)] by {}
    assert forall|a: int, b: int|
        0 <= a < rest_keys.len() && 0 <= b < rest_keys.len() && a != b implies rest_keys[a]
        != rest_keys[b] by {
        assert(rest_keys[a] == keys[origin(a)] && rest_keys[b] == keys[origin(b)]);
    }
    let expected = assoc(slots).remove(slots[i].key@);
    assert forall|k: Seq<char>| expected.contains_key(k) implies #[trigger] assoc(
        rest,
    ).contains_key(k) && assoc(rest)[k] == expected[k] by {
        lemma_assoc_key(slots, k);
        let j = choose|j: int| 0 <= j < slots.len() && slots[j].key@ == k;
        lemma_assoc_at(slots, j);
        assert(j != i);
        let at = if j == last { i } else { j };
        assert(rest[at] == slots[origin(at)]);
        lemma_assoc_at(rest, at);
    }
    assert forall|k: Seq<char>| assoc(rest).contains_key(k) implies #[trigger] expected.contains_key(
        k,
    ) by {
        lemma_assoc_key(rest, k);
        let j = choose|j: int| 0 <= j < rest.len() && rest[j].key@ == k;
        assert(rest[j] == slots[origin(j)]);
        lemma_assoc_at(slots, origin(j));
        assert(keys[origin(j)] == k && keys[i] == slots[i].key@);
    }
    assert(assoc(rest) =~= expected);
}

/// `places` tells of every key of `slots` where it stands, and of nothing
/// else.
pub open spec fn indexed<V>(slots: Seq<Slot<V>>, places: Map<Seq<char>, usize>) -> bool {
    &&& forall|i: int|
        0 <= i < slots.len() ==> places.contains_key((#[trigger] slots[i]).key@)
            && places[slots[i].key@] == i
    &&& forall|k: Seq<char>| #[trigger]
        places.contains_key(k) ==> places[k] < slots.len() && slots[places[k] as int].key@ == k
}

/// In a list whose keys have their places, no key occurs twice.
pub proof fn lemma_indexed_distinct<V>(slots: Seq<Slot<V>>, places: Map<Seq<char>, usize>)
    requires
        indexed(slots, places),
    ensures
        key_seq(slots).no_duplicates(),
        forall|k: Seq<char>| places.contains_key(k) <==> #[trigger] key_seq(slots).contains(k),
{
    let keys = key_seq(slots);
    assert forall|i: int, j: int| 0 <= i < keys.len() && 0 <= j < keys.len() && i != j implies keys[i]
        != keys[j] by {
        assert(keys[i] == slots[i].key@ && keys[j] == slots[j].key@);
    }
    assert forall|k: Seq<char>| places.contains_key(k) <==> #[trigger] keys.contains(k) by {
        if places.contains_key(k) {
            assert(keys[places[k] as int] == k);
        }
        if keys.contains(k) {
            let i = keys.index_of(k);
            assert(slots[i].key@ == k);
        }
    }
}

/// Appending a slot under a new key, and noting its place, keeps the places
/// right.
pub proof fn lemma_indexed_push<V>(slots: Seq<Slot<V>>, places: Map<Seq<char>, usize>, slot: Slot<V>)
    requires
        indexed(slots, places),
        !places.contains_key(slot.key@),
        slots.len() <= usize::MAX,
    ensures
        indexed(slots.push(slot), places.insert(slot.key@, slots.len() as usize)),
{
    let grown = slots.push(slot);
    let noted = places.insert(slot.key@, slots.len() as usize);
    assert forall|i: int| 0 <= i < grown.len() implies noted.contains_key(
        (#[trigger] grown[i]).key@,
    ) && noted[grown[i].key@] == i by {
        if i < slots.len() {
            assert(grown[i] == slots[i]);
        }
    }
    assert forall|k: Seq<char>| #[trigger] noted.contains_key(k) implies noted[k] < grown.len()
        && grown[noted[k] as int].key@ == k by {
        if k != slot.key@ {
            assert(grown[places[k] as int] == slots[places[k] as int]);
        }
    }
}

/// The places after the last slot was moved to place `i` and the last place
/// was dropped: the key that stood at `i` has none, and the key that was
/// moved stands at `i`.
pub open spec fn places_after_removal<V>(
    slots: Seq<Slot<V>>,
    places: Map<Seq<char>, usize>,
    i: int,
) -> Map<Seq<char>, usize> {
    if i == slots.len() - 1 {
        places.remove(slots[i].key@)
    } else {
        places.remove(slots[i].key@).insert(slots.last().key@, i as usize)
    }
}

/// Moving the last slot to place `i`, dropping the last place and noting the
/// move keeps the places right.
pub proof fn lemma_indexed_swap_remove<V>(
    slots: Seq<Slot<V>>,
    places: Map<Seq<char>, usize>,
    i: int,
)
    requires
        indexed(slots, places),
        0 <= i < slots.len(),
        slots.len() <= usize::MAX,
    ensures
        indexed(
            slots.update(i, slots.last()).drop_last(),
            places_after_removal(slots, places, i),
        ),
{
    let rest = slots.update(i, slots.last()).drop_last();
    let noted = places_after_removal(slots, places, i);
    let last = slots.len() - 1;
    lemma_indexed_distinct(slots, places);
    let keys = key_seq(slots);
    assert(keys[i] == slots[i].key@ && keys[last] == slots[last].key@);
    assert forall|j: int| 0 <= j < rest.len() implies noted.contains_key((#[trigger] rest[j]).key@)
        && noted[rest[j].key@] == j by {
        if j == i {
            assert(rest[j] == slots[last]);
        } else {
            assert(rest[j] == slots[j]);
            assert(keys[j] == slots[j].key@);
        }
    }
    assert forall|k: Seq<char>| #[trigger] noted.contains_key(k) implies noted[k] < rest.len()
        && rest[noted[k] as int].key@ == k by {
        if i != last && k == slots[last].key@ {
            assert(rest[i] == slots[last]);
        } else {
            let j = places[k] as int;
            assert(keys[j] == k);
            assert(j != i && j != last);
            assert(rest[j] == slots[j]);
        }
    }
}

/// A map from strings to values of type `V`.
pub struct KeyedList<V> {
    slots: Vec<Slot<V>>,
    places: StringHashMap<usize>,
}

impl<V> View for KeyedList<V> {
    type V = Map<Seq<char>, V>;

    closed spec fn view(&self) -> Map<Seq<char>, V> {
        assoc(self.slots@)
    }
}

impl<V> KeyedList<V> {
    #[verifier::type_invariant]
    spec fn keys_have_their_places(&self) -> bool {
        indexed(self.slots@, self.places@)
    }

    /// The entries in the order in which [`KeyedList::entry_at`] hands them
    /// out.
    pub closed spec fn entries(&self) -> Seq<(Seq<char>, V)> {
        pair_seq(self.slots@)
    }

    /// The empty map.
    pub fn new() -> (list: Self)
        ensures
            list@ == Map::<Seq<char>, V>::empty(),
    {
        let list = KeyedList { slots: Vec::new(), places: StringHashMap::new() };
        assert(list@ =~= Map::<Seq<char>, V>::empty()) by {
            assert forall|k: Seq<char>| !key_seq(list.slots@).contains(k) by {}
        }
        list
    }

    /// The number of entries. The entries list the map, so the map has as
    /// many keys.
    pub fn len(&self) -> (n: usize)
        ensures
            self@.dom().finite(),
            n == self@.len(),
            n == self.entries().len(),
            lists(self.entries(), self@),
    {
        proof {
            use_type_invariant(self);
            lemma_indexed_distinct(self.slots@, self.places@);
            lemma_assoc_len(self.slots@);
            lemma_pairs_list_assoc(self.slots@);
        }
        self.slots.len()
    }

    /// The entry at place `i` of the list.
    pub fn entry_at(&self, i: usize) -> (entry: (&String, &V))
        requires
            i < self.entries().len(),
        ensures
            entry.0@ == self.entries()[i as int].0,
            *entry.1 == self.entries()[i as int].1,
    {
        (&self.slots[i].key, &self.slots[i].value)
    }

    /// The place at which `key` stands, if it is a key of the list.
    fn find(&self, key: &String) -> (at: Option<usize>)
        ensures
            key_seq(self.slots@).no_duplicates(),
            match at {
                Some(i) => i < self.slots.len() && self.slots[i as int].key@ == key@,
                None => !key_seq(self.slots@).contains(key@),
            },
    {
        proof {
            use_type_invariant(self);
            lemma_indexed_distinct(self.slots@, self.places@);
        }
        match self.places.get(key.as_str()) {
            Some(i) => Some(*i),
            None => None,
        }
    }

    /// Takes the list apart and leaves it empty, so that its parts can be
    /// changed and put back with [`KeyedList::attach`].
    fn detach(&mut self) -> (parts: (Vec<Slot<V>>, StringHashMap<usize>))
        ensures
            parts.0@ == old(self).slots@,
            parts.1@ == old(self).places@,
            indexed(parts.0@, parts.1@),
            final(self).slots@ == Seq::<Slot<V>>::empty(),
    {
        proof {
            use_type_invariant(&*self);
        }
        let mut whole = KeyedList { slots: Vec::new(), places: StringHashMap::new() };
        core::mem::swap(self, &mut whole);
        let KeyedList { slots, places } = whole;
        (slots, places)
    }

    /// Makes `slots` the slots of the list and `places` their places.
    fn attach(&mut self, slots: Vec<Slot<V>>, places: StringHashMap<usize>)
        requires
            indexed(slots@, places@),
        ensures
            final(self).slots@ == slots@,
            final(self).places@ == places@,
    {
        *self = KeyedList { slots, places };
    }

    /// Whether `key` is a key of the map.
    pub fn contains_key(&self, key: &String) -> (found: bool)
        ensures
            found == self@.contains_key(key@),
    {
        match self.find(key) {
            Some(i) => {
                proof {
                    lemma_assoc_at(self.slots@, i as int);
                }
                true
            },
            None => false,
        }
    }

    /// The value under `key`, if there is one.
    pub fn get(&self, key: &String) -> (found: Option<&V>)
        ensures
            match found {
                Some(v) => self@.contains_key(key@) && *v == self@[key@],
                None => !self@.contains_key(key@),
            },
    {
        match self.find(key) {
            Some(i) => {
                proof {
                    lemma_assoc_at(self.slots@, i as int);
                }
                Some(&self.slots[i].value)
            },
            None => None,
        }
    }

    /// Removes the slot at place `i` and hands out its entry.
    fn remove_at(&mut self, i: usize) -> (entry: (String, V))
        requires
            i < old(self).slots.len(),
        ensures
            entry.0@ == old(self).slots[i as int].key@,
            entry.1 == old(self).slots[i as int].value,
            old(self)@.contains_key(entry.0@),
            entry.1 == old(self)@[entry.0@],
            final(self)@ == old(self)@.remove(entry.0@),
    {
        let (slots, places) = self.detach();
        let mut slots = slots;
        let mut places = places;
        proof {
            lemma_indexed_distinct(slots@, places@);
            lemma_assoc_at(slots@, i as int);
            lemma_assoc_swap_remove(slots@, i as int);
            lemma_indexed_swap_remove(slots@, places@, i as int);
        }
        let slot = slots.swap_remove(i);
        places.remove(slot.key.as_str());
        if i < slots.len() {
            places.insert(slots[i].key.clone(), i);
        }
        self.attach(slots, places);
        (slot.key, slot.value)
    }

    /// Removes the entry under `key`, if there is one, and hands it out.
    pub fn take(&mut self, key: &String) -> (taken: Option<(String, V)>)
        ensures
            match taken {
                Some((k, v)) => k@ == key@ && old(self)@.contains_key(key@) && v == old(self)@[key@]
                    && final(self)@ == old(self)@.remove(key@),
                None => !old(self)@.contains_key(key@) && final(self)@ == old(self)@,
            },
    {
        match self.find(key) {
            Some(i) => Some(self.remove_at(i)),
            None => None,
        }
    }

    /// Adds an entry under a key that the map does not hold yet.
    pub fn put(&mut self, key: String, value: V)
        requires
            !old(self)@.contains_key(key@),
        ensures
            final(self)@ == old(self)@.insert(key@, value),
    {
        let (slots, places) = self.detach();
        let mut slots = slots;
        let mut places = places;
        let slot = Slot { key, value };
        let end = slots.len();
        proof {
            lemma_indexed_distinct(slots@, places@);
            lemma_assoc_push(slots@, slot);
            lemma_indexed_push(slots@, places@, slot);
        }
        places.insert(slot.key.clone(), end);
        slots.push(slot);
        self.attach(slots, places);
    }

    /// Sets the value under `key`, whether or not the map held one before.
    pub fn insert(&mut self, key: String, value: V)
        ensures
            final(self)@ == old(self)@.insert(key@, value),
    {
        let _ = self.take(&key);
        self.put(key, value);
        assert(final(self)@ =~= old(self)@.insert(key@, value));
    }

    /// Removes some entry and hands it out; `None` if the map is empty.
    pub fn pop(&mut self) -> (popped: Option<(String, V)>)
        ensures
            match popped {
                Some((k, v)) => old(self)@.contains_key(k@) && v == old(self)@[k@] && final(self)@
                    == old(self)@.remove(k@),
                None => old(self)@ == Map::<Seq<char>, V>::empty() && final(self)@ == old(self)@,
            },
    {
        let n = self.slots.len();
        if n == 0 {
            assert(self@ =~= Map::<Seq<char>, V>::empty()) by {
                assert forall|k: Seq<char>| !key_seq(self.slots@).contains(k) by {}
            }
            None
        } else {
            Some(self.remove_at(n - 1))
        }
    }

    /// Removes every entry.
    pub fn clear(&mut self)
        ensures
            final(self)@ == Map::<Seq<char>, V>::empty(),
    {
        let _ = self.detach();
        assert(self@ =~= Map::<Seq<char>, V>::empty()) by {
            assert forall|k: Seq<char>| !key_seq(self.slots@).contains(k) by {}
        }
    }
}

} // verus!
