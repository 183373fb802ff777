//! Reversible masking of secrets embedded in the compiled binary.
//!
//! Compiled-in secrets (the preshared key, the state-encryption key, the
//! operator public key, the network name) are not stored as plain byte
//! literals: a build step XORs each one with a fixed mask, and the running
//! node undoes the mask once, at first use. This only raises the cost of
//! static extraction from the binary; it is a deterrent, not a security
//! boundary, and is independent of the AES-GCM encryption at rest.

use vstd::prelude::*;

verus! {

/// The byte sequence `data` XORed with `mask`, the mask repeating cyclically.
pub open spec fn masked_bytes(data: Seq<u8>, mask: Seq<u8>) -> Seq<u8>
    recommends
        mask.len() > 0,
{
    Seq::new(data.len(), |i: int| data[i] ^ mask[i % (mask.len() as int)])
}

/// XOR `data` with the cyclically repeated `mask`.
///
/// Applying the same mask twice gives the original bytes back
/// (`lemma_mask_round_trip`), so this one function both hides a secret at
/// build time and recovers it at run time.
pub fn mask_bytes(data: &Vec<u8>, mask: &Vec<u8>) -> (r: Vec<u8>)
    requires
        mask@.len() > 0,
    ensures
        r@ == masked_bytes(data@, mask@),
{
    let mut out: Vec<u8> = Vec::new();
    let mut i: usize = 0;
    while i < data.len()
        invariant
            i <= data@.len(),
            mask@.len() > 0,
            out@.len() == i,
            forall|j: int|
                0 <= j < i ==> out@[j] == data@[j] ^ mask@[j % (mask@.len() as int)],
        decreases data@.len() - i,
    {
        out.push(data[i] ^ mask[i % mask.len()]);
        i = i + 1;
    }
    assert(out@ =~= masked_bytes(data@, mask@));
    out
}

/// Masking is an involution: masking twice with the same mask is the
/// identity, so a secret hidden at build time is recovered exactly.
pub proof fn lemma_mask_round_trip(data: Seq<u8>, mask: Seq<u8>)
    requires
        mask.len() > 0,
    ensures
        masked_bytes(masked_bytes(data, mask), mask) =~= data,
{
    assert forall|i: int| 0 <= i < data.len() implies masked_bytes(
        masked_bytes(data, mask),
        mask,
    )[i] == data[i] by {
        let d = data[i];
        let m = mask[i % (mask.len() as int)];
        assert((d ^ m) ^ m == d) by (bit_vector);
    }
}

} // verus!
