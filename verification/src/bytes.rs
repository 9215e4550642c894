//! Byte-level steps that several decoding stages share.

use vstd::prelude::*;

verus! {

/// `data` with every byte XORed with `mask`.
pub open spec fn masked(data: Seq<u8>, mask: u8) -> Seq<u8> {
    Seq::new(data.len(), |i: int| data[i] ^ mask)
}

/// XORs every byte of `data` with `mask`, in place.
pub fn xor_bytes(data: &mut [u8], mask: u8)
    ensures
        final(data)@ == masked(old(data)@, mask),
{
    let n = data.len();
    let mut i: usize = 0;
    while i < n
        invariant
            i <= n,
            n == data@.len(),
            data@.len() == old(data)@.len(),
            forall|k: int| 0 <= k < i ==> data@[k] == old(data)@[k] ^ mask,
            forall|k: int| i <= k < n ==> data@[k] == old(data)@[k],
        decreases n - i,
    {
        data[i] = data[i] ^ mask;
        i = i + 1;
    }
}

/// The number that four bytes spell in little-endian order.
pub open spec fn le_u32(bytes: Seq<u8>) -> nat
    recommends
        bytes.len() == 4,
{
    (bytes[0] + 256 * bytes[1] + 65536 * bytes[2] + 16777216 * bytes[3]) as nat
}

/// Reads four bytes as a little-endian number.
pub fn read_le_u32(bytes: &[u8]) -> (value: u32)
    requires
        bytes@.len() == 4,
    ensures
        value == le_u32(bytes@),
{
    let b0: u32 = bytes[0] as u32;
    let b1: u32 = bytes[1] as u32;
    let b2: u32 = bytes[2] as u32;
    let b3: u32 = bytes[3] as u32;
    b0 + 256 * b1 + 65536 * b2 + 16777216 * b3
}

} // verus!
