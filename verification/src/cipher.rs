//! The block cipher adapter: AES-128 applied to independent 16-byte blocks,
//! and the removal of the padding that fills the last block.

use aes::cipher::generic_array::GenericArray;
use aes::cipher::{BlockDecrypt, KeyInit};
use aes::Aes128;
use vstd::prelude::*;
use vstd::slice::*;

verus! {

/// The length of an AES block, and of an AES-128 key, in bytes.
pub const BLOCK_SIZE: usize = 16;

/// The plaintext block that AES-128 decryption under `key` gives for the
/// ciphertext block `block`, both 16 bytes long.
pub uninterp spec fn aes128_block_decrypted(key: Seq<u8>, block: Seq<u8>) -> Seq<u8>;

/// Decrypts one block with `Aes128` of the crate `aes`: the cipher is made with
/// `KeyInit::new` from the 16 bytes of `key`, and `BlockDecrypt::decrypt_block`
/// is run on a copy of the 16 bytes of `block`. The result is the AES-128
/// decryption of the block, 16 bytes long.
#[verifier::external_body]
fn aes128_decrypt_block(key: &[u8], block: &[u8]) -> (plain: Vec<u8>)
    requires
        key@.len() == 16,
        block@.len() == 16,
    ensures
        plain@ == aes128_block_decrypted(key@, block@),
        plain@.len() == 16,
{
    let cipher = Aes128::new(GenericArray::from_slice(key));
    let mut buffer = GenericArray::clone_from_slice(block);
    cipher.decrypt_block(&mut buffer);
    buffer.to_vec()
}

/// The block of `data` with number `k`, counted from 0.
pub open spec fn block_at(data: Seq<u8>, k: int) -> Seq<u8> {
    data.subrange(16 * k, 16 * k + 16)
}

/// `data` decrypted block by block, each block by itself: byte `i` of the
/// result is byte `i % 16` of the decryption of block `i / 16`.
pub open spec fn ecb_decrypted(key: Seq<u8>, data: Seq<u8>) -> Seq<u8> {
    Seq::new(data.len(), |i: int| aes128_block_decrypted(key, block_at(data, i / 16))[i % 16])
}

/// What AES-128 decryption of `blocks` gives: the blocks decrypted one by
/// one, given a key of 16 bytes and a whole number of blocks.
pub open spec fn decrypted(key: Seq<u8>, blocks: Seq<u8>) -> Option<Seq<u8>> {
    if key.len() == 16 && blocks.len() % 16 == 0 {
        Some(ecb_decrypted(key, blocks))
    } else {
        None
    }
}

/// Decrypts `blocks` with AES-128 under `key`, every 16-byte block by itself.
/// A key that is not 16 bytes long, or data that is not a whole number of
/// blocks, gives `None`.
pub fn aes128_to_slice(key: &[u8], blocks: &[u8]) -> (res: Option<Vec<u8>>)
    ensures
        match res {
            Some(plain) => decrypted(key@, blocks@) == Some(plain@),
            None => decrypted(key@, blocks@) is None,
        },
{
    let length = blocks.len();
    if key.len() != BLOCK_SIZE || length % BLOCK_SIZE != 0 {
        return None;
    }
    let mut plain: Vec<u8> = Vec::new();
    let mut start: usize = 0;
    while start < length
        invariant
            key@.len() == 16,
            length == blocks@.len(),
            length % 16 == 0,
            start % 16 == 0,
            start <= length,
            plain@ == ecb_decrypted(key@, blocks@).take(start as int),
        decreases length - start,
    {
        let block = slice_subrange(blocks, start, start + BLOCK_SIZE);
        let mut piece = aes128_decrypt_block(key, block);
        proof {
            let whole = ecb_decrypted(key@, blocks@);
            assert(block@ == block_at(blocks@, start as int / 16));
            assert forall|i: int| 0 <= i < 16 implies piece@[i] == whole[start + i] by {
                assert((start + i) / 16 == start as int / 16);
                assert((start + i) % 16 == i);
            }
            assert(plain@ + piece@ =~= whole.take(start + 16));
        }
        plain.append(&mut piece);
        start = start + BLOCK_SIZE;
    }
    proof {
        assert(ecb_decrypted(key@, blocks@).take(length as int) == ecb_decrypted(key@, blocks@));
    }
    Some(plain)
}

/// `data` without its padding: the last byte says how many bytes, itself
/// counted, the padding takes. It must say 1 to 16, and no more than `data` holds.
pub open spec fn unpadded(data: Seq<u8>) -> Option<Seq<u8>> {
    if data.len() > 0 && 1 <= data.last() <= 16 && data.last() <= data.len() {
        Some(data.take(data.len() - data.last()))
    } else {
        None
    }
}

/// Strips the padding from decrypted data. Empty data, and a last byte that
/// is 0, above 16 or above the length of the data, give `None`.
pub fn unpad(data: &[u8]) -> (res: Option<Vec<u8>>)
    ensures
        match res {
            Some(plain) => unpadded(data@) == Some(plain@),
            None => unpadded(data@) is None,
        },
{
    let length = data.len();
    if length == 0 {
        return None;
    }
    let padding = data[length - 1] as usize;
    if padding == 0 || padding > BLOCK_SIZE || padding > length {
        return None;
    }
    Some(slice_to_vec(slice_subrange(data, 0, length - padding)))
}

/// A last byte of 0 or above 16 is never taken for padding.
pub proof fn lemma_unpad_rejects_bad_padding(data: Seq<u8>)
    requires
        data.len() > 0,
        data.last() == 0 || data.last() > 16,
    ensures
        unpadded(data) is None,
{
}

} // verus!
