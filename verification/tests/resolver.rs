use proxy::resolver::resolve_request;
use proxy::MappingStore;

#[test]
fn miss_forwards_path_unchanged() {
    let store = MappingStore::new();
    let target = resolve_request(&store, &"/xyz".to_string());
    assert_eq!(target, "/xyz");
}

#[test]
fn hit_rewrites_to_real_path() {
    let mut store = MappingStore::new();
    store.put("/7f3a".to_string(), "/original-path".to_string());
    let target = resolve_request(&store, &"/7f3a".to_string());
    assert_eq!(target, "/original-path");
}

#[test]
fn hit_keeps_query_of_real_path() {
    let mut store = MappingStore::new();
    store.put("/t".to_string(), "/real?page=2".to_string());
    let target = resolve_request(&store, &"/t".to_string());
    assert_eq!(target, "/real?page=2");
}

#[test]
fn malformed_real_path_fails_open() {
    let mut store = MappingStore::new();
    // a space cannot appear in a request target, so reassembly fails and
    // the original path must be forwarded, with no error surfaced
    store.put("/t".to_string(), "/bad path".to_string());
    let target = resolve_request(&store, &"/t".to_string());
    assert_eq!(target, "/t");
}

#[test]
fn resolving_reads_but_never_writes() {
    let mut store = MappingStore::new();
    store.put("/t".to_string(), "/real".to_string());
    for _ in 0..5 {
        let _ = resolve_request(&store, &"/t".to_string());
        let _ = resolve_request(&store, &"/miss".to_string());
    }
    assert_eq!(store.get(&"/t".to_string()), Some("/real".to_string()));
    assert!(store.get(&"/miss".to_string()).is_none());
}

#[test]
fn empty_store_scenario_forwards_then_mints() {
    // store empty: the request path goes upstream verbatim; the response
    // body is then rewritten per the minter's contract
    let mut store = proxy::MappingStore::new();
    let target = resolve_request(&store, &"/xyz".to_string());
    assert_eq!(target, "/xyz");
    let (token, body) = proxy::minter::mint_response(
        &mut store,
        "/original-path",
        "<a href=/original-path>Hello, World!</a>",
    );
    assert_eq!(
        body,
        "<a href=/original-path>Hello, World!</a>http://localhost/htap-lanigiro"
    );
    // the freshly minted token now resolves
    assert_eq!(resolve_request(&store, &token), "/original-path");
}
