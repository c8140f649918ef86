use blue_jni::error::{Error, StackErrorKind};

#[test]
fn active_discovery_maps_to_discovery_not_possible() {
    let e = Error::from_stack(StackErrorKind::DiscoveryActive);
    assert!(matches!(e, Error::DiscoveryNotPossible));
    assert_eq!(e.kind_name(), "DiscoveryNotPossible");
    assert_eq!(e.message(), None);
}

#[test]
fn unmapped_codes_collapse_to_generic() {
    let e = Error::from_stack(StackErrorKind::Other);
    match &e {
        Error::Generic(msg) => assert_eq!(msg, "An error occured"),
        _ => panic!("expected the generic variant"),
    }
    assert_eq!(e.kind_name(), "Generic");
    assert_eq!(e.message(), Some("An error occured"));
}

#[test]
fn adapter_not_available_is_spelled_out() {
    let e = Error::AdapterNotAvailable;
    assert_eq!(e.kind_name(), "AdapterNotAvailable");
    assert_eq!(e.message(), None);
}
