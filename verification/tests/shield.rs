use proxy::ReversePolicy;
use proxy::Shield;
use proxy::ShieldLayer;

#[test]
fn shield_substitutes_the_picked_path() {
    let shield = Shield::new((), ReversePolicy);
    assert_eq!(shield.rewrite_path(&"/abc".to_string()), "/cba");
    assert_eq!(
        shield.rewrite_path(&"/original-path".to_string()),
        "/htap-lanigiro"
    );
}

#[test]
fn shield_keeps_path_when_nothing_is_picked() {
    let shield = Shield::new((), ReversePolicy);
    // no leading slash: the policy picks nothing and the path stands
    assert_eq!(shield.rewrite_path(&"abc".to_string()), "abc");
    assert_eq!(shield.rewrite_path(&"".to_string()), "");
}

#[test]
fn shield_fails_open_on_malformed_substitute() {
    let shield = Shield::new((), ReversePolicy);
    // the reversed path contains a space, so it cannot be reassembled
    // into a well-formed target and the original path is forwarded
    assert_eq!(shield.rewrite_path(&"/bad path".to_string()), "/bad path");
}

#[test]
fn layer_wraps_a_handler() {
    let layer = ShieldLayer::new(ReversePolicy);
    let service = layer.layer(42u32);
    assert_eq!(*service.inner(), 42u32);
    assert_eq!(service.rewrite_path(&"/abc".to_string()), "/cba");
}
