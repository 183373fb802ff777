//! Trusted boundary to the compact binary record encoding.
//!
//! Three records cross a serialization boundary: the command word list that
//! travels inside a signed payload, the payload envelope itself, and the
//! persisted node state. All three use one fixed, deterministic, compact
//! binary encoding, called through the wrappers here. Each encoding is named
//! by an uninterpreted function; the decode wrappers state the property the
//! rest of the crate builds on: decoding the encoding of a record yields
//! exactly that record.

use vstd::prelude::*;

verus! {

/// The compact binary encoding of a command word list.
pub uninterp spec fn command_encoding(command: Seq<Seq<char>>) -> Seq<u8>;

/// What decoding a byte string as a command word list yields; `None` means
/// the bytes are not a well-formed encoding.
pub uninterp spec fn command_decoding(bytes: Seq<u8>) -> Option<Seq<Seq<char>>>;

/// The compact binary encoding of a payload envelope: signature, then body.
pub uninterp spec fn payload_encoding(signature: Seq<u8>, body: Seq<u8>) -> Seq<u8>;

/// What decoding a byte string as a payload envelope yields.
pub uninterp spec fn payload_decoding(bytes: Seq<u8>) -> Option<(Seq<u8>, Seq<u8>)>;

/// The compact binary encoding of the persisted node state: identity
/// keypair bytes, listen port, known peer addresses.
pub uninterp spec fn state_encoding(keypair: Seq<u8>, listen_port: u16, peers: Seq<Seq<char>>) -> Seq<
    u8,
>;

/// What decoding a byte string as a persisted node state yields.
pub uninterp spec fn state_decoding(bytes: Seq<u8>) -> Option<(Seq<u8>, u16, Seq<Seq<char>>)>;

/// Relies on bincode `encode_to_vec` with the standard configuration:
/// deterministic, and infallible for a list of strings written to a vector.
#[verifier::external_body]
pub(crate) fn encode_command(command: &Vec<String>) -> (r: Vec<u8>)
    ensures
        r@ == command_encoding(command.deep_view()),
{
    bincode::encode_to_vec(command, bincode::config::standard()).unwrap()
}

/// What `decode_command` returns for `bytes`: the decoding of `bytes` if
/// they are well formed, and in particular the exact record back whenever
/// `bytes` is the encoding of some command word list.
pub open spec fn command_decode_post(bytes: Seq<u8>, r: Option<Vec<String>>) -> bool {
    &&& r is Some <==> command_decoding(bytes) is Some
    &&& r matches Some(c) ==> command_decoding(bytes) == Some(c.deep_view())
    &&& forall|c: Seq<Seq<char>>|
        bytes == command_encoding(c) ==> (r matches Some(d) && d.deep_view() == c)
}

/// Relies on bincode `decode_from_slice` with the standard configuration:
/// deterministic, and the inverse of `encode_to_vec`, so the exact encoding
/// of any command word list decodes back to that list.
#[verifier::external_body]
pub(crate) fn decode_command(bytes: &Vec<u8>) -> (r: Option<Vec<String>>)
    ensures
        r is Some <==> command_decoding(bytes@) is Some,
        command_decode_post(bytes@, r),
{
    match bincode::decode_from_slice::<Vec<String>, _>(bytes, bincode::config::standard()) {
        Ok((command, _)) => Some(command),
        Err(_) => None,
    }
}

/// Encode a command word list to its wire bytes.
pub fn encode_command_words(command: &Vec<String>) -> (r: Vec<u8>)
    ensures
        r@ == command_encoding(command.deep_view()),
{
    encode_command(command)
}

/// Decode wire bytes back into a command word list; `None` on anything that
/// is not a well-formed encoding.
pub fn decode_command_words(bytes: &Vec<u8>) -> (r: Option<Vec<String>>)
    ensures
        r is Some <==> command_decoding(bytes@) is Some,
        r matches Some(c) ==> command_decoding(bytes@) == Some(c.deep_view()),
        forall|c: Seq<Seq<char>>|
            bytes@ == command_encoding(c) ==> (r matches Some(d) && d.deep_view() == c),
{
    decode_command(bytes)
}

/// Encoding a command word list and decoding the bytes yields exactly the
/// original words, in order.
pub fn command_words_round_trip(command: &Vec<String>) -> (r: Option<Vec<String>>)
    ensures
        r matches Some(c) && c.deep_view() == command.deep_view(),
{
    let bytes = encode_command(command);
    decode_command(&bytes)
}

/// Relies on bincode `encode_to_vec` with the standard configuration:
/// deterministic, and infallible for two byte vectors written in order.
#[verifier::external_body]
pub(crate) fn encode_payload(signature: &Vec<u8>, body: &Vec<u8>) -> (r: Vec<u8>)
    ensures
        r@ == payload_encoding(signature@, body@),
{
    bincode::encode_to_vec((signature, body), bincode::config::standard()).unwrap()
}

/// What `decode_payload` returns for `bytes`: the decoding of `bytes` if
/// they are well formed, and in particular the exact envelope back whenever
/// `bytes` is the encoding of some signature and body.
pub open spec fn payload_decode_post(bytes: Seq<u8>, r: Option<(Vec<u8>, Vec<u8>)>) -> bool {
    &&& r is Some <==> payload_decoding(bytes) is Some
    &&& r matches Some(p) ==> payload_decoding(bytes) == Some((p.0@, p.1@))
    &&& forall|s: Seq<u8>, b: Seq<u8>|
        bytes == payload_encoding(s, b) ==> (r matches Some(p) && p.0@ == s && p.1@ == b)
}

/// Relies on bincode `decode_from_slice` with the standard configuration:
/// deterministic, and the inverse of `encode_to_vec`, so the exact encoding
/// of any signature and body decodes back to that pair.
#[verifier::external_body]
pub(crate) fn decode_payload(bytes: &Vec<u8>) -> (r: Option<(Vec<u8>, Vec<u8>)>)
    ensures
        r is Some <==> payload_decoding(bytes@) is Some,
        payload_decode_post(bytes@, r),
{
    match bincode::decode_from_slice::<(Vec<u8>, Vec<u8>), _>(bytes, bincode::config::standard()) {
        Ok((payload, _)) => Some(payload),
        Err(_) => None,
    }
}

/// Relies on bincode `encode_to_vec` with the standard configuration:
/// deterministic, and infallible for the three state fields written in
/// order.
#[verifier::external_body]
pub(crate) fn encode_state(keypair: &Vec<u8>, listen_port: u16, peers: &Vec<String>) -> (r: Vec<u8>)
    ensures
        r@ == state_encoding(keypair@, listen_port, peers.deep_view()),
{
    bincode::encode_to_vec((keypair, listen_port, peers), bincode::config::standard()).unwrap()
}

/// What `decode_state` returns for `bytes`: the decoding of `bytes` if they
/// are well formed, and in particular the exact fields back whenever `bytes`
/// is the encoding of some state.
pub open spec fn state_decode_post(bytes: Seq<u8>, r: Option<(Vec<u8>, u16, Vec<String>)>) -> bool {
    &&& r is Some <==> state_decoding(bytes) is Some
    &&& r matches Some(s) ==> state_decoding(bytes) == Some((s.0@, s.1, s.2.deep_view()))
    &&& forall|k: Seq<u8>, p: u16, a: Seq<Seq<char>>|
        bytes == state_encoding(k, p, a) ==> (r matches Some(s) && s.0@ == k && s.1 == p
            && s.2.deep_view() == a)
}

/// Relies on bincode `decode_from_slice` with the standard configuration:
/// deterministic, and the inverse of `encode_to_vec`, so the exact encoding
/// of any state fields decodes back to those fields.
#[verifier::external_body]
pub(crate) fn decode_state(bytes: &Vec<u8>) -> (r: Option<(Vec<u8>, u16, Vec<String>)>)
    ensures
        r is Some <==> state_decoding(bytes@) is Some,
        state_decode_post(bytes@, r),
{
    match bincode::decode_from_slice::<(Vec<u8>, u16, Vec<String>), _>(
        bytes,
        bincode::config::standard(),
    ) {
        Ok((state, _)) => Some(state),
        Err(_) => None,
    }
}

} // verus!
