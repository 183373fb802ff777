//! The node's durable local record: identity keypair, listen port, and the
//! known-peer address book, encrypted at rest.
//!
//! The record is stored beside the executable as one file holding a fresh
//! random nonce followed by the AES-256-GCM ciphertext of the encoded
//! fields. Any defect — file absent, undecryptable, undecodable — makes
//! `load` report nothing, and the caller falls back to a freshly generated
//! default state rather than failing. A process keeps one cache of the last
//! record it persisted; a save whose content is unchanged is skipped.
//!
//! Reading and writing the file itself is the surrounding application's
//! work; this module turns file bytes into state and state into file bytes.

use vstd::prelude::*;

use crate::bytes::bytes_equal;
use crate::codec::{decode_state, encode_state, state_decoding, state_encoding};
use crate::crypto::{
    aead_decrypt, aead_encrypt, decryption, generate_identity_keypair, NONCE_LEN, STATE_KEY_LEN,
};

verus! {

/// Ceiling on the encoded record accepted for encryption. Far beyond any
/// real address book; stated so that sealing has an exact contract.
pub const STATE_SIZE_LIMIT: usize = 0xFFFF_FFFF;

/// The persisted node state: the transport identity keypair in its portable
/// encoded form, the listen port, and the known peer addresses in their
/// canonical text form, in discovery order without duplicates.
pub struct Vault {
    pub keypair: Vec<u8>,
    pub listen_port: u16,
    pub known_peers: Vec<String>,
}

/// The one per-process cache of the last record persisted (or loaded), held
/// as the encoded plaintext record. Constructed once at startup and passed
/// to the components that load and save.
pub struct VaultCache {
    pub last_saved: Option<Vec<u8>>,
}

impl VaultCache {
    /// An empty cache: nothing has been loaded or saved yet.
    pub fn new() -> (r: VaultCache)
        ensures
            r.last_saved is None,
    {
        VaultCache { last_saved: None }
    }
}

/// Whether `disk` is valid state-file content under `key`: present, long
/// enough to carry the nonce, decryptable, and decodable as a record.
pub open spec fn loadable(key: Seq<u8>, disk: Option<Vec<u8>>) -> bool {
    disk matches Some(d) && d@.len() >= NONCE_LEN && (decryption(key, d@) matches Some(pt)
        && state_decoding(pt) is Some)
}

impl Vault {
    /// The record's fields as one mathematical value.
    pub open spec fn model(&self) -> (Seq<u8>, u16, Seq<Seq<char>>) {
        (self.keypair@, self.listen_port, self.known_peers.deep_view())
    }

    /// Turn the state file's content into a state, if it is valid: the
    /// leading nonce and ciphertext must decrypt under `key`, and the
    /// plaintext must decode as a state record. Exactly the defects spec'd
    /// as recoverable — no file, too short, failed decryption, failed
    /// decode — yield `None`; the caller then falls back to a fresh
    /// default. On success the cache remembers the decrypted record, so an
    /// immediate unchanged save is a no-op.
    pub fn load(key: &Vec<u8>, disk: &Option<Vec<u8>>, cache: &mut VaultCache) -> (r: Option<Vault>)
        requires
            key@.len() == STATE_KEY_LEN,
        ensures
            r is Some <==> loadable(key@, *disk),
            r matches Some(v) ==> (disk matches Some(d) && (decryption(key@, d@) matches Some(pt)
                && state_decoding(pt) == Some(v.model()) && (final(cache).last_saved matches Some(
                cb,
            ) && cb@ == pt))),
            r is None ==> *final(cache) == *old(cache),
            forall|k: Seq<u8>, p: u16, a: Seq<Seq<char>>|
                (disk matches Some(d) && d@.len() >= NONCE_LEN && decryption(key@, d@) == Some(
                    #[trigger] state_encoding(k, p, a),
                )) ==> (r matches Some(v) && v.keypair@ == k && v.listen_port == p
                    && v.known_peers.deep_view() == a),
    {
        match disk {
            None => None,
            Some(data) => {
                if data.len() < NONCE_LEN {
                    return None;
                }
                match aead_decrypt(key, data) {
                    None => None,
                    Some(plaintext) => match decode_state(&plaintext) {
                        None => None,
                        Some(fields) => {
                            cache.last_saved = Some(plaintext);
                            Some(
                                Vault {
                                    keypair: fields.0,
                                    listen_port: fields.1,
                                    known_peers: fields.2,
                                },
                            )
                        },
                    },
                }
            },
        }
    }

    /// A fresh default state: a newly generated transport identity, the
    /// given listen port, and an empty address book.
    pub fn fresh(listen_port: u16) -> (r: Vault)
        ensures
            r.listen_port == listen_port,
            r.known_peers.deep_view() =~= Seq::<Seq<char>>::empty(),
            r.keypair@.len() > 0,
    {
        Vault { keypair: generate_identity_keypair(), listen_port, known_peers: Vec::new() }
    }

    /// Encode and encrypt the record into state-file content: a fresh
    /// random nonce followed by the ciphertext. Always succeeds for a
    /// record whose encoding stays under `STATE_SIZE_LIMIT`; the content
    /// decrypts back to exactly the encoded record.
    pub fn seal(&self, key: &Vec<u8>) -> (r: Option<Vec<u8>>)
        requires
            key@.len() == STATE_KEY_LEN,
        ensures
            r is Some <==> state_encoding(self.keypair@, self.listen_port,
                self.known_peers.deep_view()).len() < STATE_SIZE_LIMIT,
            r matches Some(b) ==> b@.len() >= NONCE_LEN && decryption(key@, b@) == Some(
                state_encoding(self.keypair@, self.listen_port, self.known_peers.deep_view()),
            ),
    {
        let encoded = encode_state(&self.keypair, self.listen_port, &self.known_peers);
        if encoded.len() < STATE_SIZE_LIMIT {
            Some(aead_encrypt(key, &encoded))
        } else {
            None
        }
    }

    /// Decide a save: if the encoded record matches the cache byte for
    /// byte, nothing needs writing and the cache is untouched; otherwise
    /// the record is sealed, the cache updated, and the returned file
    /// content is what the caller must write to disk.
    pub fn save(&self, key: &Vec<u8>, cache: &mut VaultCache) -> (r: Option<Vec<u8>>)
        requires
            key@.len() == STATE_KEY_LEN,
        ensures
            ({
                let enc = state_encoding(
                    self.keypair@,
                    self.listen_port,
                    self.known_peers.deep_view(),
                );
                &&& (r is Some <==> !(old(cache).last_saved matches Some(b) && b@ == enc)
                    && enc.len() < STATE_SIZE_LIMIT)
                &&& (r matches Some(b) ==> b@.len() >= NONCE_LEN && decryption(key@, b@) == Some(
                    enc,
                ) && (final(cache).last_saved matches Some(cb) && cb@ == enc))
                &&& (r is None ==> *final(cache) == *old(cache))
            }),
    {
        let encoded = encode_state(&self.keypair, self.listen_port, &self.known_peers);
        match &cache.last_saved {
            Some(previous) => {
                if bytes_equal(previous, &encoded) {
                    return None;
                }
            },
            None => {},
        }
        if encoded.len() < STATE_SIZE_LIMIT {
            let sealed = aead_encrypt(key, &encoded);
            cache.last_saved = Some(encoded);
            Some(sealed)
        } else {
            None
        }
    }

    /// Load the state from the file content, or fall back to a fresh
    /// default. Valid content loads as it stands and nothing needs
    /// writing. On any defect — file absent, too short, undecryptable,
    /// undecodable — the result is instead a fresh default state (a newly
    /// generated identity, the fallback port, an empty address book),
    /// already sealed: the accompanying file content must be written to
    /// disk before the state is used, and the cache then treats the fresh
    /// record as persisted.
    pub fn load_or_create(
        key: &Vec<u8>,
        disk: &Option<Vec<u8>>,
        fallback_port: u16,
        cache: &mut VaultCache,
    ) -> (r: (Vault, Option<Vec<u8>>))
        requires
            key@.len() == STATE_KEY_LEN,
        ensures
            loadable(key@, *disk) ==> (r.1 is None && (disk matches Some(d) && (decryption(
                key@,
                d@,
            ) matches Some(pt) && state_decoding(pt) == Some(r.0.model())))),
            !loadable(key@, *disk) ==> {
                &&& r.0.listen_port == fallback_port
                &&& r.0.known_peers.deep_view() =~= Seq::<Seq<char>>::empty()
                &&& r.0.keypair@.len() > 0
                &&& (r.1 is Some <==> state_encoding(
                    r.0.keypair@,
                    r.0.listen_port,
                    r.0.known_peers.deep_view(),
                ).len() < STATE_SIZE_LIMIT)
            },
            r.1 matches Some(content) ==> content@.len() >= NONCE_LEN && decryption(key@, content@)
                == Some(
                state_encoding(r.0.keypair@, r.0.listen_port, r.0.known_peers.deep_view()),
            ),
    {
        match Vault::load(key, disk, cache) {
            Some(state) => (state, None),
            None => {
                let fresh = Vault::fresh(fallback_port);
                cache.last_saved = None;
                let content = fresh.save(key, cache);
                (fresh, content)
            },
        }
    }
}

/// Round trip of the persisted state: sealing a record and loading the
/// resulting file content yields the record's fields back exactly.
pub fn sealed_state_reloads(state: &Vault, key: &Vec<u8>) -> (r: Option<Vault>)
    requires
        key@.len() == STATE_KEY_LEN,
    ensures
        state_encoding(state.keypair@, state.listen_port, state.known_peers.deep_view()).len()
            < STATE_SIZE_LIMIT ==> (r matches Some(v) && v.keypair@ == state.keypair@
            && v.listen_port == state.listen_port && v.known_peers.deep_view()
            == state.known_peers.deep_view()),
{
    let mut cache = VaultCache::new();
    match state.seal(key) {
        Some(content) => Vault::load(key, &Some(content), &mut cache),
        None => None,
    }
}

} // verus!
