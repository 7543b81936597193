use stitcher::addr::Addr;
use stitcher::dialer::StitcherClient;
use stitcher::errors::{ConstructionError, HandshakeError};
use stitcher::identity::generate_self_signed_cert;
use stitcher::listener::{accept_event_dispatches, AcceptEvent, StitcherServer};
use stitcher::trust::{CertVerdict, SkipServerVerification, TrustPolicy};

#[test]
fn listener_construction_bootstraps_identity() {
    let (server, _config) = StitcherServer::new("127.0.0.1:3000").unwrap();
    assert_eq!(
        server.local_addr,
        Addr { o0: 127, o1: 0, o2: 0, o3: 1, port: 3000 }
    );
    assert!(!server.accepting_connections);
    assert!(!server.closed);
    assert_eq!(server.identity.subject, "localhost");
    assert!(!server.identity.cert_der.is_empty());
    assert!(!server.identity.key_der.is_empty());
}

#[test]
fn listener_construction_rejects_bad_address() {
    match StitcherServer::new("not an address") {
        Err(e) => assert_eq!(e, ConstructionError::InvalidAddress),
        Ok(_) => panic!("malformed address accepted"),
    }
    match StitcherServer::new("127.0.0.1:70000") {
        Err(e) => assert_eq!(e, ConstructionError::InvalidAddress),
        Ok(_) => panic!("out-of-range port accepted"),
    }
}

#[test]
fn accept_loop_dispatches_in_completion_order() {
    let (mut server, _config) = StitcherServer::new("127.0.0.1:3000").unwrap();
    let events = vec![
        AcceptEvent::Established(1),
        AcceptEvent::Failed(HandshakeError::Rejected),
        AcceptEvent::Established(2),
        AcceptEvent::Closed,
        AcceptEvent::Established(3),
    ];
    let dispatched = server.accept_connections(&events, None);
    assert_eq!(dispatched, vec![1, 2, 3]);
    assert!(server.accepting_connections);
    assert!(!server.closed);
}

#[test]
fn failed_attempts_never_reach_the_handler() {
    let (mut server, _config) = StitcherServer::new("127.0.0.1:3000").unwrap();
    let events = vec![
        AcceptEvent::Failed(HandshakeError::Timeout),
        AcceptEvent::Failed(HandshakeError::Malformed),
        AcceptEvent::Closed,
    ];
    let dispatched = server.accept_connections(&events, None);
    assert_eq!(dispatched, Vec::<u64>::new());
    assert!(server.accepting_connections);
}

#[test]
fn stop_allows_at_most_one_more_dispatch() {
    let (mut server, _config) = StitcherServer::new("127.0.0.1:3000").unwrap();
    let events = vec![
        AcceptEvent::Established(1),
        AcceptEvent::Established(2),
        AcceptEvent::Established(3),
    ];
    // the stop request lands while the wait for the second outcome is
    // pending: that one is still dispatched, the third is not
    let dispatched = server.accept_connections(&events, Some(1));
    assert_eq!(dispatched, vec![1, 2]);
    assert!(!server.accepting_connections);
    assert!(!server.closed);
}

#[test]
fn stop_before_any_outcome_dispatches_at_most_the_in_flight_one() {
    let (mut server, _config) = StitcherServer::new("127.0.0.1:3000").unwrap();
    let events = vec![AcceptEvent::Established(9), AcceptEvent::Established(10)];
    let dispatched = server.accept_connections(&events, Some(0));
    assert_eq!(dispatched, vec![9]);
    assert!(!server.accepting_connections);
}

#[test]
fn shutdown_terminates_loop_without_handler() {
    let (mut server, _config) = StitcherServer::new("127.0.0.1:3000").unwrap();
    // shutdown lands during the first wait; the closed endpoint makes the
    // pending wait and every later one resolve without a connection
    let events = vec![AcceptEvent::Closed, AcceptEvent::Closed];
    let dispatched = server.accept_connections(&events, Some(0));
    assert_eq!(dispatched, Vec::<u64>::new());
    assert!(!server.accepting_connections);
    let cmd = server.shutdown();
    assert_eq!(cmd.code, 0);
    assert_eq!(cmd.reason, "Shutdown method called.");
    assert!(server.closed);
    assert!(!server.accepting_connections);
}

#[test]
fn stop_accepting_is_observable_between_iterations() {
    let (mut server, _config) = StitcherServer::new("127.0.0.1:3000").unwrap();
    server.start_accept_loop();
    assert!(server.should_continue_accepting());
    server.stop_accepting_connections();
    assert!(!server.should_continue_accepting());
}

#[test]
fn only_established_outcomes_dispatch() {
    assert!(accept_event_dispatches(&AcceptEvent::Established(7)));
    assert!(!accept_event_dispatches(&AcceptEvent::Failed(
        HandshakeError::Unreachable
    )));
    assert!(!accept_event_dispatches(&AcceptEvent::Closed));
}

#[test]
fn handshake_tokens_match() {
    // the server-name token the dialer presents matches the subject the
    // listener's self-signed identity is generated for
    let (server, _config) = StitcherServer::new("127.0.0.1:3000").unwrap();
    assert_eq!(StitcherClient::server_name(), server.identity.subject);
    assert_eq!(StitcherClient::server_name(), "localhost");
}

#[test]
fn construction_errors_describe_themselves() {
    assert_eq!(ConstructionError::InvalidAddress.describe(), "invalid address");
    assert_eq!(
        ConstructionError::IdentityGeneration.describe(),
        "identity generation failed"
    );
    assert_eq!(ConstructionError::BindFailure.describe(), "bind failure");
}

#[test]
fn dialer_construction_attaches_accept_any_policy() {
    let client = StitcherClient::new("127.0.0.1:3001").unwrap();
    assert_eq!(
        client.local_addr,
        Addr { o0: 127, o1: 0, o2: 0, o3: 1, port: 3001 }
    );
    assert_eq!(client.connection, None);
    assert_eq!(client.policy, SkipServerVerification);
}

#[test]
fn dialer_construction_rejects_bad_address() {
    match StitcherClient::new("327.0.0.1:1") {
        Err(e) => assert_eq!(e, ConstructionError::InvalidAddress),
        Ok(_) => panic!("out-of-range octet accepted"),
    }
}

#[test]
fn connect_failure_leaves_dialer_connectionless() {
    let mut client = StitcherClient::new("127.0.0.1:3001").unwrap();
    client.complete_connect(Ok(5)).unwrap();
    assert_eq!(client.connection, Some(5));
    // a malformed remote address is fatal for the call and clears the slot
    let r = client.begin_connect("nowhere");
    assert_eq!(r, Err(ConstructionError::InvalidAddress));
    assert_eq!(client.connection, None);
    // so is a failed handshake
    client.complete_connect(Ok(6)).unwrap();
    let r = client.complete_connect(Err(HandshakeError::Timeout));
    assert_eq!(r, Err(HandshakeError::Timeout));
    assert_eq!(client.connection, None);
}

#[test]
fn connect_replaces_prior_connection() {
    let mut client = StitcherClient::new("127.0.0.1:3001").unwrap();
    client.complete_connect(Ok(5)).unwrap();
    client.complete_connect(Ok(8)).unwrap();
    assert_eq!(client.connection, Some(8));
}

#[test]
fn disconnect_twice_equals_disconnect_once() {
    let mut client = StitcherClient::new("127.0.0.1:3001").unwrap();
    client.complete_connect(Ok(42)).unwrap();
    let first = client.disconnect();
    match first {
        Some(cmd) => {
            assert_eq!(cmd.code, 0);
            assert_eq!(cmd.reason, "Disconnect method called.");
        }
        None => panic!("a live connection must be closed"),
    }
    let after_one = client;
    let second = client.disconnect();
    assert!(second.is_none());
    assert_eq!(client, after_one);
}

#[test]
fn accept_any_policy_approves_every_identity() {
    let policy = SkipServerVerification::new();
    let (server, _config) = StitcherServer::new("127.0.0.1:3000").unwrap();
    // a self-signed certificate with no chain of trust is approved
    assert_eq!(
        policy.verify_server_cert(&server.identity.cert_der, "localhost"),
        CertVerdict::Accepted
    );
    // as is anything else, whatever the bytes and the dialled name
    assert_eq!(
        policy.verify_server_cert(&vec![0u8, 1, 2, 3], "elsewhere"),
        CertVerdict::Accepted
    );
    assert_eq!(
        policy.verify_server_cert(&Vec::new(), ""),
        CertVerdict::Accepted
    );
}

#[test]
fn identity_generation_is_fresh_and_bound_to_subject() {
    let a = generate_self_signed_cert().unwrap();
    let b = generate_self_signed_cert().unwrap();
    assert_eq!(a.subject, "localhost");
    assert_eq!(b.subject, "localhost");
    assert!(!a.cert_der.is_empty());
    assert!(!a.key_der.is_empty());
    // ephemeral material is generated fresh per listener
    assert_ne!(a.key_der, b.key_der);
}

#[test]
fn connect() {
    // the lifecycle of one session between a listener on 127.0.0.1:3000
    // and a dialer bound to 127.0.0.1:3001
    let (mut server, _config) = StitcherServer::new("127.0.0.1:3000").unwrap();
    let mut client = StitcherClient::new("127.0.0.1:3001").unwrap();

    let remote = client.begin_connect("127.0.0.1:3000").unwrap();
    assert_eq!(remote, server.local_addr);
    client.complete_connect(Ok(100)).unwrap();
    assert_eq!(client.connection, Some(100));

    // the listener's handler fires exactly once, for that connection
    let events = vec![AcceptEvent::Established(100)];
    let dispatched = server.accept_connections(&events, None);
    assert_eq!(dispatched, vec![100]);
    assert!(server.accepting_connections);

    client.disconnect();
    assert_eq!(client.connection, None);
    // the listener remains accepting
    assert!(server.accepting_connections);
}
