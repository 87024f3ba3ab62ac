//! Listeners, requests and replies.
use afterburner_wasi::daemon_cluster::{cluster_mode_enabled, ClusterBindError};
use afterburner_wasi::daemon_http::{
    broken_body_reply, broken_reply_reply, Admission, BindOutcome, BindStep, DaemonHttp, PortClaim,
    ReplyEnvelope, LISTEN_ERR_ADDR_IN_USE, LISTEN_ERR_IO, MAX_BODY,
};
use afterburner_wasi::daemon_port_claims::{ClaimResult, SharedPortClaims};

fn reply(status: u16, body: &str) -> ReplyEnvelope {
    ReplyEnvelope { status, headers: vec![], body: body.as_bytes().to_vec() }
}

#[test]
fn ids_of_servers_and_requests_start_at_one() {
    let mut http = DaemonHttp::new();
    assert_eq!(http.register_listener(8080), 1);
    assert_eq!(http.register_listener(8081), 2);
    assert_eq!(http.register_pending(), 1);
    assert_eq!(http.register_pending(), 2);
    assert_eq!(http.listener_count(), 2);
}

#[test]
fn closed_listener_frees_its_port() {
    let mut http = DaemonHttp::with_runtime();
    assert_eq!(http.try_claim_port_for(8080), PortClaim::Owner(1));
    assert_eq!(http.try_claim_port_for(8080), PortClaim::Busy);
    assert!(http.close_listener(1));
    assert_eq!(http.listener_count(), 0);
    assert!(matches!(http.try_claim_port_for(8080), PortClaim::Owner(_)));
}

#[test]
fn closing_an_unknown_listener_does_nothing() {
    let mut http = DaemonHttp::with_runtime();
    assert_eq!(http.try_claim_port_for(8080), PortClaim::Owner(1));
    assert!(!http.close_listener(7));
    assert_eq!(http.listener_count(), 1);
}

#[test]
fn second_shard_follows_the_owner() {
    let mut http = DaemonHttp::with_runtime();
    assert!(!http.is_shared_listeners());
    http.enable_shared_listeners();
    assert!(http.is_shared_listeners());
    assert_eq!(http.try_claim_port_for(3000), PortClaim::Owner(1));
    assert_eq!(http.try_claim_port_for(3000), PortClaim::Follower(1));
    assert_eq!(http.listener_count(), 1);
}

#[test]
fn released_port_can_be_claimed_again() {
    let mut http = DaemonHttp::with_runtime();
    assert_eq!(http.try_claim_port_for(3000), PortClaim::Owner(1));
    http.release_port(3000);
    assert_eq!(http.listener_count(), 0);
    assert_eq!(http.try_claim_port_for(3000), PortClaim::Owner(2));
}

#[test]
fn datagram_claims_do_not_touch_stream_claims() {
    let mut http = DaemonHttp::with_runtime();
    assert_eq!(http.try_claim_port_for(443), PortClaim::Owner(1));
    assert_eq!(http.try_claim_h3_port(443), PortClaim::Owner(2));
    assert_eq!(http.try_claim_h3_port(443), PortClaim::Busy);
    http.release_h3_port(443);
    assert_eq!(http.try_claim_h3_port(443), PortClaim::Owner(4));
    assert_eq!(http.try_claim_port_for(443), PortClaim::Busy);
}

#[test]
fn binding_without_a_daemon_only_gives_out_an_id() {
    let mut http = DaemonHttp::new();
    match http.bind_listener(8080) {
        BindStep::Answer(code) => assert_eq!(code, 1),
        BindStep::Bind(_) => panic!("there is nothing to bind"),
    }
}

#[test]
fn every_outcome_of_binding_has_its_answer() {
    let mut http = DaemonHttp::with_runtime();
    assert_eq!(http.bind_listener(8080), BindStep::Bind(1));
    assert_eq!(http.finish_bind(8080, 1, BindOutcome::Bound), 1);
    assert_eq!(http.bind_listener(8080), BindStep::Answer(LISTEN_ERR_ADDR_IN_USE));

    let mut taken = DaemonHttp::with_runtime();
    assert_eq!(taken.bind_listener(8080), BindStep::Bind(1));
    assert_eq!(taken.finish_bind(8080, 1, BindOutcome::AddrInUse), LISTEN_ERR_ADDR_IN_USE);
    assert_eq!(taken.listener_count(), 0);

    let mut failed = DaemonHttp::with_runtime();
    assert_eq!(failed.bind_listener(8080), BindStep::Bind(1));
    assert_eq!(failed.finish_bind(8080, 1, BindOutcome::Failed), LISTEN_ERR_IO);
    assert!(matches!(failed.bind_listener(8080), BindStep::Bind(_)));
}

#[test]
fn reply_reaches_its_request_once() {
    let mut http = DaemonHttp::with_runtime();
    let first = http.register_pending();
    let second = http.register_pending();
    let sent = http.deliver_reply(first, reply(200, "hello"));
    assert_eq!(sent.unwrap().body, b"hello".to_vec());
    assert!(http.deliver_reply(first, reply(200, "again")).is_none());
    assert!(http.take_reply(second));
    assert!(!http.take_reply(second));
    assert!(http.deliver_reply(99, reply(200, "nobody")).is_none());
}

#[test]
fn body_over_the_limit_is_refused() {
    let mut http = DaemonHttp::with_runtime();
    let body = vec![0u8; MAX_BODY + 1];
    match http.admit_request(1, "POST".into(), Some("/".into()), vec![], body) {
        Admission::Refuse(r) => {
            assert_eq!(r.status, 413);
            assert_eq!(r.body, b"burn: request body exceeds 16777216 bytes".to_vec());
        }
        Admission::Dispatch(_) => panic!("the body is too large"),
    }
    assert_eq!(http.register_pending(), 1);
}

#[test]
fn body_at_the_limit_is_dispatched() {
    let mut http = DaemonHttp::with_runtime();
    let headers = vec![("host".to_string(), "example.com".to_string())];
    match http.admit_request(3, "POST".into(), None, headers, vec![7u8; MAX_BODY]) {
        Admission::Dispatch(e) => {
            assert_eq!((e.server_id, e.req_id), (3, 1));
            assert_eq!(e.method, "POST");
            assert_eq!(e.url, "/");
            assert_eq!(e.headers.len(), 1);
            assert_eq!(e.body.len(), MAX_BODY);
        }
        Admission::Refuse(_) => panic!("the body fits"),
    }
    assert!(http.take_reply(1));
}

#[test]
fn request_without_a_daemon_is_answered_with_an_error() {
    let mut http = DaemonHttp::new();
    match http.admit_request(1, "GET".into(), Some("/a?b=c".into()), vec![], vec![]) {
        Admission::Refuse(r) => {
            assert_eq!(r.status, 500);
            assert_eq!(r.body, b"burn: daemon not running\n".to_vec());
        }
        Admission::Dispatch(_) => panic!("nobody serves"),
    }
}

#[test]
fn broken_bodies_and_replies_have_their_answers() {
    let body = broken_body_reply("connection reset");
    assert_eq!((body.status, body.body), (413, b"burn: request body: connection reset".to_vec()));
    let built = broken_reply_reply();
    assert_eq!((built.status, built.body), (500, b"burn: response build failed".to_vec()));
}

#[test]
fn first_claim_of_a_port_wins() {
    let mut claims = SharedPortClaims::new();
    assert_eq!(claims.try_claim(80), ClaimResult::Owner(1));
    assert_eq!(claims.try_claim(80), ClaimResult::Follower(1));
    assert_eq!(claims.try_claim(81), ClaimResult::Owner(3));
    assert_eq!(claims.owner(80), Some(1));
    claims.release(80);
    assert_eq!(claims.owner(80), None);
    assert_eq!(claims.owner(81), Some(3));
    assert_eq!(claims.try_claim(80), ClaimResult::Owner(4));
}

#[test]
fn cluster_mode_is_asked_for_by_one_or_true() {
    assert!(cluster_mode_enabled(Some("1")));
    assert!(cluster_mode_enabled(Some("true")));
    assert!(cluster_mode_enabled(Some("TRUE")));
    assert!(!cluster_mode_enabled(Some("0")));
    assert!(!cluster_mode_enabled(Some("")));
    assert!(!cluster_mode_enabled(None));
}

#[test]
fn cluster_bind_errors_tell_a_taken_address_apart() {
    assert!(matches!(ClusterBindError::from_io(true, "taken".into()), ClusterBindError::AddrInUse));
    match ClusterBindError::from_io(false, "denied".into()) {
        ClusterBindError::Io(text) => assert_eq!(text, "denied"),
        ClusterBindError::AddrInUse => panic!("the address is free"),
    }
}

#[test]
fn listener_is_closed_once() {
    let mut http = DaemonHttp::new();
    let first = http.register_listener(8080);
    let second = http.register_listener(9090);
    assert!(first >= 1 && second >= 1);
    assert_eq!(http.listener_count(), 2);
    assert!(http.close_listener(first));
    assert_eq!(http.listener_count(), 1);
    assert!(!http.close_listener(first));
    assert_eq!(http.listener_count(), 1);
    assert!(http.register_listener(8080) >= 1);
    assert_eq!(http.register_listener(9090), LISTEN_ERR_ADDR_IN_USE);
}
