//! Trusted boundary to the cryptographic primitives.
//!
//! The node composes existing implementations of its primitives: Dilithium
//! level-3 signatures for the operator credential, AES-256-GCM for the state
//! store's encryption at rest, an operating-system entropy source for key and
//! nonce material, and an Ed25519 transport identity. Each outside call sits
//! behind one wrapper here whose contract states only what the called crate's
//! own source and documentation show.

use vstd::prelude::*;

use aes_gcm::aead::rand_core::RngCore;
use aes_gcm::aead::{Aead, OsRng};
use aes_gcm::{AeadCore, Aes256Gcm, Key, KeyInit, Nonce};
use crystals_dilithium::dilithium3;

verus! {

/// Byte length of a Dilithium level-3 public key.
pub const DILITHIUM_PUBLIC_KEY_LEN: usize = 1952;

/// Byte length of a Dilithium level-3 secret key.
pub const DILITHIUM_SECRET_KEY_LEN: usize = 4000;

/// Byte length of a Dilithium level-3 signature.
pub const DILITHIUM_SIGNATURE_LEN: usize = 3293;

/// Byte length of the embedded state-encryption key (AES-256).
pub const STATE_KEY_LEN: usize = 32;

/// Byte length of the preshared key that closes the swarm's transport.
pub const PRESHARED_KEY_LEN: usize = 32;

/// Byte length of the nonce prepended to every encrypted state file.
pub const NONCE_LEN: usize = 12;

/// The Dilithium level-3 signature over `message` under `secret_key`.
///
/// Signing here is deterministic, so the signature is a function of the key
/// and message alone; nothing further is assumed about its shape.
pub uninterp spec fn signature_of(secret_key: Seq<u8>, message: Seq<u8>) -> Seq<u8>;

/// Whether `signature` is a valid Dilithium level-3 signature over `message`
/// under `public_key`.
pub uninterp spec fn signature_ok(public_key: Seq<u8>, message: Seq<u8>, signature: Seq<u8>) -> bool;

/// The two halves belong to one signing keypair: a signature produced with
/// the secret half verifies under the public half, whatever the message.
pub open spec fn valid_operator_keypair(public_key: Seq<u8>, secret_key: Seq<u8>) -> bool {
    forall|m: Seq<u8>| #[trigger] signature_ok(public_key, m, signature_of(secret_key, m))
}

/// What AES-256-GCM decryption of `data` under `key` yields: the first
/// `NONCE_LEN` bytes of `data` are taken as the nonce, the rest as the
/// ciphertext with its tag; `None` means authentication failed. Decryption
/// is a function of the key and bytes alone.
pub uninterp spec fn decryption(key: Seq<u8>, data: Seq<u8>) -> Option<Seq<u8>>;

/// Relies on crystals-dilithium `dilithium3::SecretKey::sign`, which is
/// deterministic (non-randomized signing), and on `SecretKey::from_bytes`,
/// which accepts exactly `DILITHIUM_SECRET_KEY_LEN` bytes.
#[verifier::external_body]
pub(crate) fn dilithium_sign(secret_key: &Vec<u8>, message: &Vec<u8>) -> (r: Vec<u8>)
    requires
        secret_key@.len() == DILITHIUM_SECRET_KEY_LEN,
    ensures
        r@ == signature_of(secret_key@, message@),
        r@.len() == DILITHIUM_SIGNATURE_LEN,
{
    let key = dilithium3::SecretKey::from_bytes(secret_key).unwrap();
    key.sign(message).to_vec()
}

/// Relies on crystals-dilithium `dilithium3::PublicKey::verify` (which
/// rejects a signature of the wrong length by returning false) and on
/// `PublicKey::from_bytes`, which accepts exactly
/// `DILITHIUM_PUBLIC_KEY_LEN` bytes.
#[verifier::external_body]
pub(crate) fn dilithium_verify(public_key: &Vec<u8>, message: &Vec<u8>, signature: &Vec<u8>) -> (r:
    bool)
    requires
        public_key@.len() == DILITHIUM_PUBLIC_KEY_LEN,
    ensures
        r == signature_ok(public_key@, message@, signature@),
{
    let key = dilithium3::PublicKey::from_bytes(public_key).unwrap();
    key.verify(message, signature)
}

/// Relies on crystals-dilithium `dilithium3::Keypair::generate`: a fresh
/// keypair whose secret half signs and whose public half verifies those
/// signatures, with the documented key lengths. Generation draws on the
/// system entropy source, so nothing is assumed beyond what holds of every
/// generated pair.
#[verifier::external_body]
pub(crate) fn dilithium_generate() -> (r: (Vec<u8>, Vec<u8>))
    ensures
        r.0@.len() == DILITHIUM_PUBLIC_KEY_LEN,
        r.1@.len() == DILITHIUM_SECRET_KEY_LEN,
        valid_operator_keypair(r.0@, r.1@),
{
    let keypair = dilithium3::Keypair::generate(None).unwrap();
    (keypair.public.to_bytes().to_vec(), keypair.secret.to_bytes().to_vec())
}

/// Relies on aes-gcm `Aes256Gcm`: encrypting under a fresh random nonce and
/// prepending that nonce yields bytes that decrypt, under the same key, to
/// exactly the plaintext that went in. The nonce is random, so nothing else
/// is claimed about the output bytes.
#[verifier::external_body]
pub(crate) fn aead_encrypt(key: &Vec<u8>, plaintext: &Vec<u8>) -> (r: Vec<u8>)
    requires
        key@.len() == STATE_KEY_LEN,
        plaintext@.len() < 0x1_0000_0000,
    ensures
        r@.len() >= NONCE_LEN,
        decryption(key@, r@) == Some(plaintext@),
{
    let cipher = Aes256Gcm::new(Key::<Aes256Gcm>::from_slice(key));
    let nonce = Aes256Gcm::generate_nonce(&mut OsRng);
    let ciphertext = cipher.encrypt(&nonce, plaintext.as_slice()).unwrap();
    let mut out = nonce.to_vec();
    out.extend_from_slice(&ciphertext);
    out
}

/// Relies on aes-gcm `Aes256Gcm::decrypt`: splits the leading nonce off and
/// authenticates the remainder; a tampered or foreign input fails and yields
/// `None`.
#[verifier::external_body]
pub(crate) fn aead_decrypt(key: &Vec<u8>, data: &Vec<u8>) -> (r: Option<Vec<u8>>)
    requires
        key@.len() == STATE_KEY_LEN,
        data@.len() >= NONCE_LEN,
    ensures
        r is Some <==> decryption(key@, data@) is Some,
        r matches Some(p) ==> decryption(key@, data@) == Some(p@),
{
    let cipher = Aes256Gcm::new(Key::<Aes256Gcm>::from_slice(key));
    let nonce = Nonce::from_slice(&data[..12]);
    match cipher.decrypt(nonce, &data[12..]) {
        Ok(plaintext) => Some(plaintext),
        Err(_) => None,
    }
}

/// Relies on rand_core `OsRng::fill_bytes`: fills the buffer from the
/// operating system's entropy source. The bytes are random; only the
/// length is stated.
#[verifier::external_body]
pub(crate) fn random_bytes(count: usize) -> (r: Vec<u8>)
    ensures
        r@.len() == count,
{
    let mut out = vec![0u8; count];
    OsRng.fill_bytes(&mut out);
    out
}

/// Relies on libp2p-identity `Keypair::generate_ed25519` and
/// `Keypair::to_protobuf_encoding`: a fresh Ed25519 transport keypair in its
/// portable encoded form (which for an Ed25519 key never fails and is never
/// empty). The keypair is random; only non-emptiness is stated.
#[verifier::external_body]
pub(crate) fn generate_identity_keypair() -> (r: Vec<u8>)
    ensures
        r@.len() > 0,
{
    let keypair = libp2p::identity::Keypair::generate_ed25519();
    keypair.to_protobuf_encoding().unwrap()
}

} // verus!
