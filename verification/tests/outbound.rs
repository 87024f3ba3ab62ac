//! Which hosts a profile lets a script connect to.
use afterburner_wasi::manifold::{host_allowed, net_outbound_allowed, Manifold, NetAccess};

#[test]
fn outbound_full_no_allowlist_permits_anything() {
    let mut m = Manifold::sealed();
    m.net = NetAccess::OutboundFull(None);
    assert!(net_outbound_allowed(&m, "example.com"));
    assert!(net_outbound_allowed(&m, "127.0.0.1"));
}

#[test]
fn outbound_full_allowlist_filters_hosts() {
    let mut m = Manifold::sealed();
    m.net = NetAccess::OutboundFull(Some(vec!["api.example.com".into()]));
    assert!(net_outbound_allowed(&m, "api.example.com"));
    assert!(!net_outbound_allowed(&m, "evil.com"));
}

#[test]
fn outbound_http_blocks_raw_tcp() {
    let mut m = Manifold::sealed();
    m.net = NetAccess::OutboundHttp(None);
    assert!(!net_outbound_allowed(&m, "example.com"));
}

#[test]
fn sealed_blocks_everything() {
    let m = Manifold::sealed();
    assert!(!net_outbound_allowed(&m, "anything"));
}

#[test]
fn wildcard_subdomain_match() {
    let mut m = Manifold::sealed();
    m.net = NetAccess::OutboundFull(Some(vec!["*.trusted.io".into()]));
    assert!(net_outbound_allowed(&m, "api.trusted.io"));
    assert!(net_outbound_allowed(&m, "deeply.nested.trusted.io"));
    assert!(!net_outbound_allowed(&m, "trusted.io"));
    assert!(!net_outbound_allowed(&m, "evil.com"));
}

#[test]
fn wildcard_alone_matches_anything() {
    let mut m = Manifold::sealed();
    m.net = NetAccess::OutboundFull(Some(vec!["*".into()]));
    assert!(net_outbound_allowed(&m, "x.y.z"));
}

#[test]
fn letter_case_of_a_host_does_not_matter() {
    let allow: Vec<String> = vec!["API.Example.com".into(), "*.Trusted.IO".into()];
    assert!(host_allowed("api.example.COM", &allow));
    assert!(host_allowed("A.trusted.io", &allow));
    assert!(!host_allowed("example.com", &allow));
}

#[test]
fn wildcard_wants_a_label_in_front() {
    let allow: Vec<String> = vec!["*.trusted.io".into()];
    assert!(!host_allowed("nottrusted.io", &allow));
    assert!(!host_allowed("trusted.io", &allow));
    assert!(host_allowed("a.trusted.io", &allow));
}
