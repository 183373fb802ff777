//! The operator credential and the authenticated command envelope.
//!
//! Exactly one operator keypair exists per deployment; its public half is
//! embedded in every peer binary, its private half is held only by trusted
//! operators. A payload wraps an opaque command body together with the
//! operator's signature over it; every node verifies the signature against
//! the embedded public key before trusting the body. This authority is
//! deliberately independent of each node's own transport identity: transport
//! identity proves which swarm member relayed a message, the operator
//! signature proves the command itself is authorized.

use vstd::prelude::*;

use crate::bytes::clone_bytes;
use crate::codec::{
    decode_payload, encode_payload, payload_decode_post, payload_decoding, payload_encoding,
};
use crate::crypto::{
    dilithium_sign, dilithium_verify, signature_of, signature_ok, valid_operator_keypair,
    DILITHIUM_PUBLIC_KEY_LEN, DILITHIUM_SECRET_KEY_LEN, DILITHIUM_SIGNATURE_LEN,
};

verus! {

/// A signed instruction broadcast over the swarm's topic: the operator's
/// signature over `body`, and `body` itself, an encoded command.
pub struct Payload {
    pub signature: Vec<u8>,
    pub body: Vec<u8>,
}

impl Payload {
    /// Sign `body` with the operator's private key and wrap both into an
    /// envelope. A payload built this way verifies under any public key
    /// that forms a keypair with `private_key`.
    pub fn new(private_key: &Vec<u8>, body: &Vec<u8>) -> (r: Payload)
        requires
            private_key@.len() == DILITHIUM_SECRET_KEY_LEN,
        ensures
            r.signature@ == signature_of(private_key@, body@),
            r.signature@.len() == DILITHIUM_SIGNATURE_LEN,
            r.body@ == body@,
            forall|pk: Seq<u8>|
                #[trigger] valid_operator_keypair(pk, private_key@) ==> signature_ok(
                    pk,
                    body@,
                    r.signature@,
                ),
    {
        let signature = dilithium_sign(private_key, body);
        Payload { signature, body: clone_bytes(body) }
    }

    /// Check the envelope's signature over its body against the embedded
    /// operator public key.
    pub fn verify(&self, public_key: &Vec<u8>) -> (r: bool)
        requires
            public_key@.len() == DILITHIUM_PUBLIC_KEY_LEN,
        ensures
            r == signature_ok(public_key@, self.body@, self.signature@),
    {
        dilithium_verify(public_key, &self.body, &self.signature)
    }

    /// Decode an envelope from wire bytes. Returns `None` on anything that
    /// is not a well-formed envelope; in particular, the serialization of
    /// any payload decodes back to that payload.
    pub fn from_slice(slice: &Vec<u8>) -> (r: Option<Payload>)
        ensures
            r is Some <==> payload_decoding(slice@) is Some,
            r matches Some(p) ==> payload_decoding(slice@) == Some((p.signature@, p.body@)),
            forall|s: Seq<u8>, b: Seq<u8>|
                slice@ == payload_encoding(s, b) ==> (r matches Some(p) && p.signature@ == s
                    && p.body@ == b),
    {
        match decode_payload(slice) {
            Some(fields) => Some(Payload { signature: fields.0, body: fields.1 }),
            None => None,
        }
    }

    /// Serialize the envelope to its wire bytes.
    pub fn to_vec(&self) -> (r: Vec<u8>)
        ensures
            r@ == payload_encoding(self.signature@, self.body@),
    {
        encode_payload(&self.signature, &self.body)
    }
}

/// Validate a candidate operator private key against the embedded public
/// key: the key must have the exact secret-key length, and a signature it
/// produces over the probe message must verify. On success the key bytes are
/// handed back for use; on any failure the node runs without
/// command-issuing capability.
pub fn check_operator_key(candidate: Vec<u8>, public_key: &Vec<u8>, probe: &Vec<u8>) -> (r: Option<
    Vec<u8>,
>)
    requires
        public_key@.len() == DILITHIUM_PUBLIC_KEY_LEN,
    ensures
        r is Some <==> (candidate@.len() == DILITHIUM_SECRET_KEY_LEN && signature_ok(
            public_key@,
            probe@,
            signature_of(candidate@, probe@),
        )),
        r matches Some(k) ==> k@ == candidate@,
        candidate@.len() == DILITHIUM_SECRET_KEY_LEN && valid_operator_keypair(
            public_key@,
            candidate@,
        ) ==> r is Some,
{
    if candidate.len() != DILITHIUM_SECRET_KEY_LEN {
        return None;
    }
    let payload = Payload::new(&candidate, probe);
    if payload.verify(public_key) {
        Some(candidate)
    } else {
        None
    }
}

} // verus!
