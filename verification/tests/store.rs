use proxy::MappingStore;

#[test]
fn empty_store_misses_everything() {
    let store = MappingStore::new();
    assert!(store.get(&"/xyz".to_string()).is_none());
    assert!(store.get(&"".to_string()).is_none());
}

#[test]
fn put_then_get_returns_stored_path() {
    let mut store = MappingStore::new();
    store.put("/7f3a".to_string(), "/original-path".to_string());
    let real = store.get(&"/7f3a".to_string());
    assert_eq!(real, Some("/original-path".to_string()));
}

#[test]
fn put_overwrites_previous_value() {
    let mut store = MappingStore::new();
    store.put("/t".to_string(), "/first".to_string());
    store.put("/t".to_string(), "/second".to_string());
    assert_eq!(store.get(&"/t".to_string()), Some("/second".to_string()));
}

#[test]
fn get_never_mutates_the_store() {
    let mut store = MappingStore::new();
    store.put("/a".to_string(), "/one".to_string());
    store.put("/b".to_string(), "/two".to_string());
    for _ in 0..10 {
        let _ = store.get(&"/a".to_string());
        let _ = store.get(&"/missing".to_string());
    }
    assert_eq!(store.get(&"/a".to_string()), Some("/one".to_string()));
    assert_eq!(store.get(&"/b".to_string()), Some("/two".to_string()));
    assert!(store.get(&"/missing".to_string()).is_none());
}

#[test]
fn interleaved_distinct_puts_lose_no_update() {
    let mut store = MappingStore::new();
    let n = 16;
    for k in 0..n {
        store.put(format!("/token{}", k), format!("/real{}", k));
        // reads of earlier tokens interleaved with the writes
        for j in 0..k {
            assert_eq!(store.get(&format!("/token{}", j)), Some(format!("/real{}", j)));
        }
    }
    for k in 0..n {
        assert_eq!(store.get(&format!("/token{}", k)), Some(format!("/real{}", k)));
    }
}

#[test]
fn puts_for_distinct_tokens_commute() {
    let mut ab = MappingStore::new();
    ab.put("/a".to_string(), "/one".to_string());
    ab.put("/b".to_string(), "/two".to_string());
    let mut ba = MappingStore::new();
    ba.put("/b".to_string(), "/two".to_string());
    ba.put("/a".to_string(), "/one".to_string());
    for token in ["/a", "/b", "/c"] {
        assert_eq!(ab.get(&token.to_string()), ba.get(&token.to_string()));
    }
}
