use cursedcontainer::{CursedKey, Storage, FIRST_CONTAINER_ID, NO_CONTAINER_ID};

fn ready<T>(id: usize) -> Storage<T> {
    let mut s = Storage::new();
    s.init(id);
    s
}

#[test]
fn insert_then_write_through_reference() {
    let mut s: Storage<usize> = ready(FIRST_CONTAINER_ID);
    let key = s.insert(69420);
    assert_eq!(s.get(key), Some(&69420));
    match s.get_mut(key) {
        Some(r) => *r = 1,
        None => panic!("key did not resolve"),
    }
    assert_eq!(s.get(key), Some(&1));
    assert_eq!(s.get_mut(key), Some(&mut 1));
}

#[test]
fn two_insertions_get_consecutive_indices() {
    let mut s: Storage<&str> = ready(4);
    let a = s.insert("a");
    let b = s.insert("b");
    assert_eq!(a.index(), 0);
    assert_eq!(b.index(), 1);
    assert_eq!(s.get(a), Some(&"a"));
    assert_eq!(s.get(b), Some(&"b"));
}

#[test]
fn key_of_another_store_is_rejected() {
    let mut a: Storage<i32> = ready(1);
    let k = a.insert(10);
    let mut b: Storage<i32> = ready(2);
    let kb = b.insert(20);
    assert_eq!(k.index(), kb.index());
    assert_eq!(b.get(k), None);
    assert_eq!(b.get_mut(k), None);
    assert_eq!(a.get(kb), None);
    assert_eq!(a.get(k), Some(&10));
}

#[test]
fn hundred_insertions_fill_every_index_once() {
    let mut s: Storage<i32> = ready(9);
    let mut keys: Vec<CursedKey> = Vec::new();
    for v in 0..100 {
        keys.push(s.insert(v));
    }
    assert_eq!(s.len(), 100);
    let mut seen = vec![false; 100];
    for (i, k) in keys.iter().enumerate() {
        assert_eq!(k.index(), i);
        assert_eq!(k.container_id(), 9);
        let v = *s.get(*k).unwrap() as usize;
        assert!(!seen[v]);
        seen[v] = true;
    }
    assert!(seen.iter().all(|b| *b));
}

#[test]
fn out_of_range_index_finds_nothing() {
    let mut small: Storage<u8> = ready(7);
    for v in 0..3 {
        small.insert(v);
    }
    let mut large: Storage<u8> = ready(7);
    let mut far = large.insert(0);
    for v in 1..51 {
        far = large.insert(v);
    }
    assert_eq!(far.index(), 50);
    assert_eq!(far.container_id(), small.id());
    assert_eq!(small.get(far), None);
    assert_eq!(small.get_mut(far), None);
    assert_eq!(large.get(far), Some(&50));
}

#[test]
fn fresh_store_resolves_nothing() {
    let mut other: Storage<u8> = ready(FIRST_CONTAINER_ID);
    let k = other.insert(1);
    let s: Storage<u8> = Storage::new();
    assert!(!s.is_initialized());
    assert_eq!(s.id(), NO_CONTAINER_ID);
    assert_eq!(s.len(), 0);
    assert_eq!(s.get(k), None);
    let t: Storage<u8> = ready(FIRST_CONTAINER_ID);
    assert_eq!(t.get(k), None);
}

#[test]
fn boundary_moves_by_one_on_insert() {
    let mut s: Storage<u8> = ready(5);
    let k0 = s.insert(1);
    let mut probe: Storage<u8> = ready(5);
    probe.insert(0);
    let k1 = probe.insert(0);
    let k2 = probe.insert(0);
    assert_eq!(s.get(k1), None);
    let new_key = s.insert(2);
    assert_eq!(new_key, k1);
    assert_eq!(s.get(k1), Some(&2));
    assert_eq!(s.get(k2), None);
    assert_eq!(s.get(k0), Some(&1));
}

#[test]
fn init_runs_once() {
    let mut s: Storage<u8> = Storage::new();
    s.init(3);
    assert!(s.is_initialized());
    assert_eq!(s.id(), 3);
    let k = s.insert(8);
    s.init(9);
    assert_eq!(s.id(), 3);
    assert_eq!(s.len(), 1);
    assert_eq!(s.get(k), Some(&8));
}

#[test]
fn write_leaves_other_slots_alone() {
    let mut s: Storage<i64> = ready(2);
    let a = s.insert(-1);
    let b = s.insert(-2);
    *s.get_mut(b).unwrap() = 40;
    assert_eq!(s.get(a), Some(&-1));
    assert_eq!(s.get(b), Some(&40));
}

#[test]
fn keys_compare_by_issuer_and_index() {
    let mut a: Storage<u8> = ready(1);
    let mut b: Storage<u8> = ready(2);
    let ka = a.insert(0);
    let kb = b.insert(0);
    let ka2 = a.insert(0);
    assert_eq!(ka, ka);
    assert_ne!(ka, kb);
    assert_ne!(ka, ka2);
    let copy = ka;
    assert_eq!(copy.container_id(), 1);
    assert_eq!(copy.index(), 0);
}
