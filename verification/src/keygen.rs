//! Generation of a deployment's cryptographic material.
//!
//! The provisioning tool calls these to produce what one deployment needs:
//! the preshared swarm key, the state-encryption key, and the operator
//! signing keypair. A node calls the identity generator when it needs a
//! fresh transport identity to persist. Each secret is generated once and
//! embedded; none is ever derived from another.

use vstd::prelude::*;

use crate::crypto::{
    dilithium_generate, generate_identity_keypair, random_bytes, valid_operator_keypair,
    DILITHIUM_PUBLIC_KEY_LEN, DILITHIUM_SECRET_KEY_LEN, PRESHARED_KEY_LEN, STATE_KEY_LEN,
};

verus! {

/// A fresh preshared swarm key: random bytes of the exact key length.
pub fn generate_preshared_key() -> (r: Vec<u8>)
    ensures
        r@.len() == PRESHARED_KEY_LEN,
{
    random_bytes(PRESHARED_KEY_LEN)
}

/// A fresh state-encryption key: random bytes of the exact key length.
pub fn generate_storage_encryption_key() -> (r: Vec<u8>)
    ensures
        r@.len() == STATE_KEY_LEN,
{
    random_bytes(STATE_KEY_LEN)
}

/// A fresh operator signing keypair, public half first. What the secret
/// half signs, the public half verifies.
pub fn generate_operator_keypair() -> (r: (Vec<u8>, Vec<u8>))
    ensures
        r.0@.len() == DILITHIUM_PUBLIC_KEY_LEN,
        r.1@.len() == DILITHIUM_SECRET_KEY_LEN,
        valid_operator_keypair(r.0@, r.1@),
{
    dilithium_generate()
}

/// A fresh node transport identity, in its portable encoded form.
pub fn generate_node_identity() -> (r: Vec<u8>)
    ensures
        r@.len() > 0,
{
    generate_identity_keypair()
}

/// A random probe message for the operator key's startup self-check.
pub fn generate_probe() -> (r: Vec<u8>)
    ensures
        r@.len() == 32,
{
    random_bytes(32)
}

} // verus!
