use session_registry::keyed::KeyedList;

fn key(text: &str) -> String {
    String::from(text)
}

#[test]
fn new_list_is_empty() {
    let list: KeyedList<u32> = KeyedList::new();
    assert_eq!(list.len(), 0);
    assert!(!list.contains_key(&key("a")));
    assert_eq!(list.get(&key("a")), None);
}

#[test]
fn insert_then_get() {
    let mut list: KeyedList<u32> = KeyedList::new();
    list.insert(key("a"), 1);
    list.insert(key("b"), 2);
    assert_eq!(list.len(), 2);
    assert_eq!(list.get(&key("a")), Some(&1));
    assert_eq!(list.get(&key("b")), Some(&2));
    assert_eq!(list.get(&key("c")), None);
}

#[test]
fn insert_overwrites_same_key() {
    let mut list: KeyedList<u32> = KeyedList::new();
    list.insert(key("a"), 1);
    list.insert(key("a"), 7);
    assert_eq!(list.len(), 1);
    assert_eq!(list.get(&key("a")), Some(&7));
}

#[test]
fn put_adds_a_new_key() {
    let mut list: KeyedList<u32> = KeyedList::new();
    assert!(!list.contains_key(&key("a")));
    list.put(key("a"), 5);
    assert!(list.contains_key(&key("a")));
    assert_eq!(list.len(), 1);
}

#[test]
fn take_removes_only_that_key() {
    let mut list: KeyedList<u32> = KeyedList::new();
    list.insert(key("a"), 1);
    list.insert(key("b"), 2);
    list.insert(key("c"), 3);
    assert_eq!(list.take(&key("a")), Some((key("a"), 1)));
    assert_eq!(list.len(), 2);
    assert_eq!(list.get(&key("a")), None);
    assert_eq!(list.get(&key("b")), Some(&2));
    assert_eq!(list.get(&key("c")), Some(&3));
    assert_eq!(list.take(&key("a")), None);
    assert_eq!(list.len(), 2);
}

#[test]
fn pop_hands_out_every_entry_once() {
    let mut list: KeyedList<u32> = KeyedList::new();
    list.insert(key("a"), 1);
    list.insert(key("b"), 2);
    list.insert(key("c"), 3);
    let mut seen: Vec<(String, u32)> = Vec::new();
    while let Some(entry) = list.pop() {
        seen.push(entry);
    }
    seen.sort();
    assert_eq!(seen, vec![(key("a"), 1), (key("b"), 2), (key("c"), 3)]);
    assert_eq!(list.len(), 0);
    assert_eq!(list.pop(), None);
}

#[test]
fn clear_removes_everything() {
    let mut list: KeyedList<u32> = KeyedList::new();
    list.insert(key("a"), 1);
    list.insert(key("b"), 2);
    list.clear();
    assert_eq!(list.len(), 0);
    assert_eq!(list.get(&key("a")), None);
    list.insert(key("a"), 9);
    assert_eq!(list.get(&key("a")), Some(&9));
}

#[test]
fn entry_at_walks_all_entries() {
    let mut list: KeyedList<u32> = KeyedList::new();
    list.insert(key("a"), 1);
    list.insert(key("b"), 2);
    list.insert(key("a"), 3);
    let mut seen: Vec<(String, u32)> = Vec::new();
    let mut i = 0;
    while i < list.len() {
        let (k, v) = list.entry_at(i);
        seen.push((k.clone(), *v));
        i += 1;
    }
    seen.sort();
    assert_eq!(seen, vec![(key("a"), 3), (key("b"), 2)]);
}

#[test]
fn keys_are_found_after_many_removals() {
    let mut list: KeyedList<usize> = KeyedList::new();
    for i in 0..200 {
        list.insert(format!("key{}", i), i);
    }
    assert_eq!(list.len(), 200);
    for i in 0..200 {
        if i % 3 == 0 {
            assert_eq!(list.take(&format!("key{}", i)), Some((format!("key{}", i), i)));
        }
    }
    assert_eq!(list.len(), 133);
    for i in 0..200 {
        let name = format!("key{}", i);
        if i % 3 == 0 {
            assert!(!list.contains_key(&name));
            assert_eq!(list.get(&name), None);
        } else {
            assert!(list.contains_key(&name));
            assert_eq!(list.get(&name), Some(&i));
        }
    }
    let mut seen: Vec<(String, usize)> = Vec::new();
    let mut place = 0;
    while place < list.len() {
        let (k, v) = list.entry_at(place);
        assert_eq!(list.get(k), Some(v));
        seen.push((k.clone(), *v));
        place += 1;
    }
    seen.sort();
    seen.dedup();
    assert_eq!(seen.len(), 133);
}

#[test]
fn taking_the_last_entry_leaves_the_others_in_place() {
    let mut list: KeyedList<u32> = KeyedList::new();
    list.insert(key("a"), 1);
    list.insert(key("b"), 2);
    list.insert(key("c"), 3);
    assert_eq!(list.take(&key("c")), Some((key("c"), 3)));
    assert_eq!(list.get(&key("a")), Some(&1));
    assert_eq!(list.get(&key("b")), Some(&2));
    assert_eq!(list.take(&key("b")), Some((key("b"), 2)));
    assert_eq!(list.take(&key("a")), Some((key("a"), 1)));
    assert_eq!(list.len(), 0);
    list.insert(key("c"), 4);
    assert_eq!(list.get(&key("c")), Some(&4));
}

#[test]
fn a_key_can_come_back_after_it_was_taken() {
    let mut list: KeyedList<u32> = KeyedList::new();
    list.insert(key("a"), 1);
    list.insert(key("b"), 2);
    list.take(&key("a"));
    list.put(key("a"), 3);
    assert_eq!(list.len(), 2);
    assert_eq!(list.get(&key("a")), Some(&3));
    assert_eq!(list.get(&key("b")), Some(&2));
    list.clear();
    assert!(!list.contains_key(&key("a")));
    assert!(!list.contains_key(&key("b")));
}
