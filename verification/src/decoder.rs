//! The decoder: a byte-wise XOR with the detected key.

use vstd::prelude::*;

verus! {

/// `bytes` with every byte XOR-ed with `key`.
pub open spec fn xor_mask(bytes: Seq<u8>, key: u8) -> Seq<u8> {
    Seq::new(bytes.len(), |i: int| bytes[i] ^ key)
}

/// Unmasks `cipher` with `key`. Total: every input has a result, of the
/// input's length, whose byte at each index is the input's byte XOR `key`.
pub fn decode(cipher: &[u8], key: u8) -> (plain: Vec<u8>)
    ensures
        plain@ == xor_mask(cipher@, key),
        plain@.len() == cipher@.len(),
{
    let mut plain: Vec<u8> = Vec::with_capacity(cipher.len());
    let mut i: usize = 0;
    while i < cipher.len()
        invariant
            i <= cipher@.len(),
            plain@.len() == i,
            forall|j: int| 0 <= j < i ==> plain@[j] == cipher@[j] ^ key,
        decreases cipher@.len() - i,
    {
        plain.push(cipher[i] ^ key);
        i += 1;
    }
    plain
}

/// Masking keeps the length, whatever the bytes and the key.
pub proof fn lemma_mask_keeps_length(bytes: Seq<u8>, key: u8)
    ensures
        xor_mask(bytes, key).len() == bytes.len(),
{
}

/// Masking twice with one key gives the bytes back: XOR is its own inverse.
pub proof fn lemma_mask_round_trip(bytes: Seq<u8>, key: u8)
    ensures
        xor_mask(xor_mask(bytes, key), key) == bytes,
{
    assert forall|i: int| 0 <= i < bytes.len() implies (bytes[i] ^ key) ^ key == bytes[i] by {
        let b: u8 = bytes[i];
        assert((b ^ key) ^ key == b) by (bit_vector);
    }
    assert(xor_mask(xor_mask(bytes, key), key) =~= bytes);
}

} // verus!
