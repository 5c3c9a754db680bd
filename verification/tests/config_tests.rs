use forward_proxy::config::build_config;
use forward_proxy::forward::{select_transport, Transport};

#[test]
fn build_config_without_via() {
    let c = build_config("http://example.internal:8080", None).unwrap();
    assert_eq!(c.downstream.scheme, "http");
    assert_eq!(c.downstream.authority, "example.internal:8080");
    assert!(c.via_proxy.is_none());
}

#[test]
fn build_config_with_valid_via() {
    let c = build_config("http://example.internal:8080", Some("http://proxy.local:3128")).unwrap();
    let via = c.via_proxy.as_ref().unwrap();
    assert_eq!(via.scheme, "http");
    assert_eq!(via.authority, "proxy.local:3128");
}

#[test]
fn malformed_downstream_fails_startup() {
    assert!(build_config("", None).is_err());
    assert!(build_config("not a uri", None).is_err());
    assert!(build_config("example.internal:8080", None).is_err());
}

#[test]
fn malformed_via_falls_back_to_direct() {
    let c = build_config("http://example.internal:8080", Some("::bad::")).unwrap();
    assert!(c.via_proxy.is_none());
    assert_eq!(select_transport(&c), Transport::Direct);
}

#[test]
fn empty_via_falls_back_to_direct() {
    let c = build_config("http://example.internal:8080", Some("")).unwrap();
    assert!(c.via_proxy.is_none());
}

#[test]
fn transport_follows_configuration_alone() {
    let direct = build_config("http://a.internal:1", None).unwrap();
    let via = build_config("http://a.internal:1", Some("http://p.internal:2")).unwrap();
    assert_eq!(select_transport(&direct), Transport::Direct);
    assert_eq!(select_transport(&via), Transport::Via);
    // Selecting again for another request gives the same choice.
    assert_eq!(select_transport(&direct), Transport::Direct);
    assert_eq!(select_transport(&via), Transport::Via);
}
