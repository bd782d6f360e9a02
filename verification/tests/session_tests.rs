use akinator::error::Error;
use akinator::session_manager::SessionStore;

#[test]
fn insert_then_get() {
    let mut s: SessionStore<u64, &str> = SessionStore::new(100, 2);
    assert!(s.is_empty());
    s.insert(1, "a", 10).unwrap();
    assert_eq!(s.get(&1, 50).copied(), Some("a"));
    assert_eq!(s.len(), 1);
    assert_eq!(s.ttl(), 100);
}

#[test]
fn get_refreshes_and_expires() {
    let mut s: SessionStore<u64, &str> = SessionStore::new(100, 2);
    s.insert(1, "a", 0).unwrap();
    assert_eq!(s.get(&1, 99).copied(), Some("a"));
    assert_eq!(s.get(&1, 198).copied(), Some("a"));
    assert_eq!(s.get(&1, 298).copied(), None);
    assert_eq!(s.len(), 1);
    assert_eq!(s.get(&2, 0), None);
}

#[test]
fn full_store_refuses_new_keys() {
    let mut s: SessionStore<u64, &str> = SessionStore::new(100, 2);
    s.insert(1, "a", 0).unwrap();
    s.insert(2, "b", 0).unwrap();
    match s.insert(3, "c", 50) {
        Err(Error::AkinatorError(m)) => {
            assert_eq!(m, "SessionManager reached maximum capacity limit. Cannot insert new session.")
        }
        other => panic!("unexpected {:?}", other),
    }
    s.insert(2, "b2", 50).unwrap();
    assert_eq!(s.get(&2, 60).copied(), Some("b2"));
    assert_eq!(s.len(), 2);
}

#[test]
fn full_store_evicts_idle_sessions() {
    let mut s: SessionStore<u64, &str> = SessionStore::new(100, 2);
    s.insert(1, "a", 0).unwrap();
    s.insert(2, "b", 90).unwrap();
    s.insert(3, "c", 150).unwrap();
    assert_eq!(s.len(), 2);
    assert_eq!(s.get(&1, 150), None);
    assert_eq!(s.get(&3, 150).copied(), Some("c"));
}

#[test]
fn zero_capacity_refuses_everything() {
    let mut s: SessionStore<u64, &str> = SessionStore::new(100, 0);
    assert!(s.insert(1, "a", 0).is_err());
    assert!(s.is_empty());
}

#[test]
fn remove_and_evict() {
    let mut s: SessionStore<String, u32> = SessionStore::new(10, 5);
    s.insert("a".to_string(), 1, 0).unwrap();
    s.insert("b".to_string(), 2, 5).unwrap();
    assert_eq!(s.remove(&"a".to_string()), Some(1));
    assert_eq!(s.remove(&"a".to_string()), None);
    s.evict_expired(15);
    assert!(s.is_empty());
}

#[test]
fn insert_grows_by_one_for_new_keys() {
    let mut s: SessionStore<u64, &str> = SessionStore::new(100, 3);
    s.insert(1, "a", 0).unwrap();
    assert_eq!(s.len(), 1);
    s.insert(1, "a2", 1).unwrap();
    assert_eq!(s.len(), 1);
    s.insert(2, "b", 2).unwrap();
    assert_eq!(s.len(), 2);
    for k in 3..10 {
        let _ = s.insert(k, "x", 3);
        assert!(s.len() <= 3);
    }
}
