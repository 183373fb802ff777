use takoyaki::codec::encode_command_words;
use takoyaki::commands::{CommandHandler, ExecOutcome};
use takoyaki::keygen::generate_operator_keypair;
use takoyaki::payload::Payload;
use takoyaki::reactor::{DhtMode, DispatchOutcome, NodeEvent, Reactor};
use takoyaki::vault::Vault;

fn registry() -> CommandHandler {
    let mut handler = CommandHandler::new();
    handler.register_commands().expect("registration must succeed");
    handler
}

fn empty_reactor() -> Reactor {
    Reactor::new(Vault {
        keypair: vec![1, 2, 3],
        listen_port: 4001,
        known_peers: Vec::new(),
    })
}

#[test]
fn address_book_add_then_prune_ends_empty() {
    let handler = registry();
    let (public_key, _) = generate_operator_keypair();
    let mut reactor = empty_reactor();
    let address = String::from("/ip4/10.1.1.1/tcp/4001/p2p/peerP");

    let added = reactor.handle_event(
        &handler,
        &public_key,
        NodeEvent::NewExternalAddrOfPeer { address: address.clone() },
    );
    assert!(added.persist, "a new address must be persisted");
    assert_eq!(reactor.vault.known_peers, vec![address.clone()]);

    let pruned = reactor.handle_event(
        &handler,
        &public_key,
        NodeEvent::OutgoingConnectionError { failed_addresses: vec![address] },
    );
    assert!(pruned.persist);
    assert!(reactor.vault.known_peers.is_empty(), "the book must end empty");
}

#[test]
fn known_address_is_not_added_twice() {
    let handler = registry();
    let (public_key, _) = generate_operator_keypair();
    let mut reactor = empty_reactor();
    let address = String::from("/ip4/10.1.1.1/tcp/4001/p2p/peerP");
    reactor.handle_event(
        &handler,
        &public_key,
        NodeEvent::NewExternalAddrOfPeer { address: address.clone() },
    );
    let again = reactor.handle_event(
        &handler,
        &public_key,
        NodeEvent::NewExternalAddrOfPeer { address: address.clone() },
    );
    assert!(!again.persist, "an already known address is not persisted again");
    assert_eq!(reactor.vault.known_peers, vec![address]);
}

#[test]
fn pruning_keeps_unrelated_addresses() {
    let handler = registry();
    let (public_key, _) = generate_operator_keypair();
    let mut reactor = empty_reactor();
    let keep = String::from("/ip4/10.1.1.1/tcp/4001/p2p/peerA");
    let drop = String::from("/ip4/10.1.1.2/tcp/4002/p2p/peerB");
    for a in [keep.clone(), drop.clone()] {
        reactor.handle_event(
            &handler,
            &public_key,
            NodeEvent::NewExternalAddrOfPeer { address: a },
        );
    }
    reactor.handle_event(
        &handler,
        &public_key,
        NodeEvent::OutgoingConnectionError { failed_addresses: vec![drop] },
    );
    assert_eq!(reactor.vault.known_peers, vec![keep]);
}

#[test]
fn dht_mode_toggles_through_server_back_to_client() {
    let handler = registry();
    let (public_key, _) = generate_operator_keypair();
    let mut reactor = empty_reactor();
    assert_eq!(reactor.dht_mode, DhtMode::Client);

    let confirmed = reactor.handle_event(&handler, &public_key, NodeEvent::ExternalAddrConfirmed);
    assert_eq!(reactor.dht_mode, DhtMode::Server);
    assert_eq!(confirmed.set_dht_mode, Some(DhtMode::Server));

    let expired = reactor.handle_event(&handler, &public_key, NodeEvent::ExternalAddrExpired);
    assert_eq!(reactor.dht_mode, DhtMode::Client);
    assert_eq!(expired.set_dht_mode, Some(DhtMode::Client));
}

#[test]
fn peer_info_is_followed_and_routed() {
    let handler = registry();
    let (public_key, _) = generate_operator_keypair();
    let mut reactor = empty_reactor();
    let reaction = reactor.handle_event(
        &handler,
        &public_key,
        NodeEvent::PeerInfoReceived {
            peer_id: String::from("peerQ"),
            addresses: vec![String::from("/ip4/10.2.2.2/tcp/4001")],
        },
    );
    assert_eq!(reaction.peer_to_follow.as_deref(), Some("peerQ"));
    assert_eq!(reaction.routing_addresses, vec![String::from("/ip4/10.2.2.2/tcp/4001")]);
    assert!(!reaction.persist);
}

#[test]
fn signed_command_is_dispatched() {
    let handler = registry();
    let (public_key, private_key) = generate_operator_keypair();
    let mut reactor = empty_reactor();
    let body = encode_command_words(&vec![String::from("lua"), String::from("x = 5")]);
    let wire = Payload::new(&private_key, &body).to_vec();
    let reaction = reactor.handle_event(&handler, &public_key, NodeEvent::Message { data: wire });
    match reaction.dispatch {
        Some(DispatchOutcome::Dispatched(ExecOutcome::Completed)) => {}
        _ => panic!("expected the signed command to run"),
    }
}

#[test]
fn unsigned_garbage_is_dropped() {
    let handler = registry();
    let (public_key, _) = generate_operator_keypair();
    let mut reactor = empty_reactor();
    let reaction = reactor.handle_event(
        &handler,
        &public_key,
        NodeEvent::Message { data: vec![0xAA; 9] },
    );
    assert!(matches!(reaction.dispatch, Some(DispatchOutcome::NotAPayload)));
}

#[test]
fn foreign_signature_is_dropped() {
    let handler = registry();
    let (public_key, _) = generate_operator_keypair();
    let (_, other_private) = generate_operator_keypair();
    let mut reactor = empty_reactor();
    let body = encode_command_words(&vec![String::from("lua"), String::from("x = 5")]);
    let wire = Payload::new(&other_private, &body).to_vec();
    let reaction = reactor.handle_event(&handler, &public_key, NodeEvent::Message { data: wire });
    assert!(matches!(reaction.dispatch, Some(DispatchOutcome::BadSignature)));
}

#[test]
fn verified_non_command_body_is_dropped() {
    let handler = registry();
    let (public_key, private_key) = generate_operator_keypair();
    let mut reactor = empty_reactor();
    let body = vec![0xFFu8; 6];
    let wire = Payload::new(&private_key, &body).to_vec();
    let reaction = reactor.handle_event(&handler, &public_key, NodeEvent::Message { data: wire });
    assert!(matches!(reaction.dispatch, Some(DispatchOutcome::NotACommand)));
}

#[test]
fn quiet_events_change_nothing() {
    let handler = registry();
    let (public_key, _) = generate_operator_keypair();
    let mut reactor = empty_reactor();
    for event in [
        NodeEvent::NewListenAddr { address: String::from("/ip4/0.0.0.0/tcp/4001") },
        NodeEvent::PortMappingNewExternalAddr { address: String::from("/ip4/1.2.3.4/tcp/4001") },
        NodeEvent::PortMappingGatewayNotFound,
        NodeEvent::PortMappingNonRoutableGateway,
        NodeEvent::Other,
    ] {
        let reaction = reactor.handle_event(&handler, &public_key, event);
        assert!(!reaction.persist);
        assert!(reaction.set_dht_mode.is_none());
        assert!(reaction.dispatch.is_none());
    }
    assert_eq!(reactor.dht_mode, DhtMode::Client);
    assert!(reactor.vault.known_peers.is_empty());
}
