use takoyaki::keygen::{generate_operator_keypair, generate_probe};
use takoyaki::payload::{check_operator_key, Payload};

#[test]
fn payload_constructed_with_operator_key_verifies() {
    let (public_key, private_key) = generate_operator_keypair();
    let body = b"the command body".to_vec();
    let payload = Payload::new(&private_key, &body);
    assert!(payload.verify(&public_key));
}

#[test]
fn flipped_signature_bit_fails_verification() {
    let (public_key, private_key) = generate_operator_keypair();
    let body = b"the command body".to_vec();
    let mut payload = Payload::new(&private_key, &body);
    let mid = payload.signature.len() / 2;
    payload.signature[mid] ^= 0x01;
    assert!(!payload.verify(&public_key));
}

#[test]
fn altered_body_fails_verification() {
    let (public_key, private_key) = generate_operator_keypair();
    let body = b"the command body".to_vec();
    let mut payload = Payload::new(&private_key, &body);
    payload.body[0] ^= 0x01;
    assert!(!payload.verify(&public_key));
}

#[test]
fn foreign_key_fails_verification() {
    let (_, private_key) = generate_operator_keypair();
    let (other_public, _) = generate_operator_keypair();
    let body = b"the command body".to_vec();
    let payload = Payload::new(&private_key, &body);
    assert!(!payload.verify(&other_public));
}

#[test]
fn envelope_round_trip() {
    let (_, private_key) = generate_operator_keypair();
    let body = vec![9u8, 8, 7, 6];
    let payload = Payload::new(&private_key, &body);
    let wire = payload.to_vec();
    let back = Payload::from_slice(&wire).expect("serialized payload must deserialize");
    assert_eq!(back.signature, payload.signature);
    assert_eq!(back.body, payload.body);
}

#[test]
fn invalid_envelope_bytes_are_rejected() {
    let garbage = vec![0xFFu8; 11];
    assert!(Payload::from_slice(&garbage).is_none());
}

#[test]
fn operator_key_check_accepts_matching_key() {
    let (public_key, private_key) = generate_operator_keypair();
    let probe = generate_probe();
    let accepted = check_operator_key(private_key.clone(), &public_key, &probe);
    assert_eq!(accepted, Some(private_key));
}

#[test]
fn operator_key_check_rejects_wrong_length() {
    let (public_key, _) = generate_operator_keypair();
    let probe = generate_probe();
    assert!(check_operator_key(vec![1u8; 100], &public_key, &probe).is_none());
}

#[test]
fn operator_key_check_rejects_mismatched_key() {
    let (public_key, _) = generate_operator_keypair();
    let (_, other_private) = generate_operator_keypair();
    let probe = generate_probe();
    assert!(check_operator_key(other_private, &public_key, &probe).is_none());
}
