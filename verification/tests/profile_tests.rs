use takoyaki::address::peer_id_of_address;
use takoyaki::keygen::{
    generate_node_identity, generate_operator_keypair, generate_preshared_key,
    generate_storage_encryption_key,
};
use takoyaki::obfuscate::mask_bytes;
use takoyaki::profile::NetworkProfile;

fn sample_profile() -> NetworkProfile {
    let (public_key, _) = generate_operator_keypair();
    NetworkProfile::new(
        String::from("project-takoyaki"),
        vec![7u8; 32],
        public_key,
        vec![9u8; 32],
        vec![String::from("/ip4/10.9.9.9/tcp/4001/p2p/seedPeer")],
        0,
    )
}

#[test]
fn masking_is_reversible() {
    let secret = b"an embedded secret value".to_vec();
    let mask = vec![0x5Au8, 0xC3, 0x17];
    let hidden = mask_bytes(&secret, &mask);
    assert_ne!(hidden, secret, "the mask must actually change the bytes");
    assert_eq!(mask_bytes(&hidden, &mask), secret);
}

#[test]
fn masking_single_byte_mask() {
    let secret = vec![0x00u8, 0xFF, 0x10];
    let mask = vec![0xFFu8];
    assert_eq!(mask_bytes(&secret, &mask), vec![0xFFu8, 0x00, 0xEF]);
}

#[test]
fn derived_strings_follow_the_network_name() {
    let profile = sample_profile();
    assert_eq!(profile.gossipsub_topic(), "project-takoyaki");
    assert_eq!(profile.identify_protocol(), "/project-takoyaki/id/1.0.0");
    assert_eq!(profile.kademlia_protocol(), "/project-takoyaki/kad/1.0.0");
    assert_eq!(profile.state_file_name(), "project-takoyaki.bin");
    assert_eq!(profile.key_file_name(), "project-takoyaki.key");
}

#[test]
fn generated_secrets_have_their_lengths() {
    assert_eq!(generate_preshared_key().len(), 32);
    assert_eq!(generate_storage_encryption_key().len(), 32);
    let (public_key, private_key) = generate_operator_keypair();
    assert_eq!(public_key.len(), 1952);
    assert_eq!(private_key.len(), 4000);
    assert!(!generate_node_identity().is_empty());
}

#[test]
fn generated_identity_parses_as_keypair() {
    let encoded = generate_node_identity();
    assert!(libp2p::identity::Keypair::from_protobuf_encoding(&encoded).is_ok());
}

#[test]
fn peer_id_is_read_from_full_address() {
    let address = String::from("/ip4/10.1.1.1/tcp/4001/p2p/12D3KooWExample");
    assert_eq!(peer_id_of_address(&address).as_deref(), Some("12D3KooWExample"));
}

#[test]
fn address_without_peer_segment_has_no_id() {
    assert!(peer_id_of_address(&String::from("/ip4/10.1.1.1/tcp/4001")).is_none());
    assert!(peer_id_of_address(&String::from("/ip4/10.1.1.1/tcp/4001/p2p/")).is_none());
    assert!(peer_id_of_address(&String::from("plainhostname")).is_none());
    assert!(peer_id_of_address(&String::from("")).is_none());
}
