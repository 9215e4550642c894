//! Key derivation: the two fixed AES keys, and the stream-cipher key that the
//! key region of a container hides.

use vstd::prelude::*;
use vstd::slice::*;
use crate::bytes::{masked, xor_bytes};
use crate::cipher::{aes128_to_slice, decrypted, unpad, unpadded};

verus! {

/// The byte that masks every byte of the key region.
pub const KEY_MASK: u8 = 0x64;

/// The length of the vendor tag that stands before the derived key.
pub const KEY_PREFIX_LENGTH: usize = 17;

/// The fixed AES key that decrypts the key region.
pub open spec fn core_key() -> Seq<u8> {
    seq![
        0x68u8, 0x7au8, 0x48u8, 0x52u8, 0x41u8, 0x6du8, 0x73u8, 0x6fu8,
        0x35u8, 0x6bu8, 0x49u8, 0x6eu8, 0x62u8, 0x61u8, 0x78u8, 0x57u8,
    ]
}

/// The fixed AES key that decrypts the metadata region.
pub open spec fn meta_key() -> Seq<u8> {
    seq![
        0x23u8, 0x31u8, 0x34u8, 0x6cu8, 0x6au8, 0x6bu8, 0x5fu8, 0x21u8,
        0x5cu8, 0x5du8, 0x26u8, 0x30u8, 0x55u8, 0x3cu8, 0x27u8, 0x28u8,
    ]
}

/// The two AES keys that a decode needs.
#[derive(Debug, Clone, PartialEq, Eq)]
pub struct Key {
    /// Decrypts the key region.
    pub core: Vec<u8>,
    /// Decrypts the metadata region.
    pub meta: Vec<u8>,
}

impl Key {
    /// Both keys are AES-128 keys: 16 bytes long.
    pub open spec fn wf(&self) -> bool {
        self.core@.len() == 16 && self.meta@.len() == 16
    }

    /// The keys that every container of this format is made with.
    pub fn fixed() -> (keys: Key)
        ensures
            keys.core@ == core_key(),
            keys.meta@ == meta_key(),
            keys.wf(),
    {
        let core: Vec<u8> = vec![
            0x68, 0x7a, 0x48, 0x52, 0x41, 0x6d, 0x73, 0x6f,
            0x35, 0x6b, 0x49, 0x6e, 0x62, 0x61, 0x78, 0x57,
        ];
        let meta: Vec<u8> = vec![
            0x23, 0x31, 0x34, 0x6c, 0x6a, 0x6b, 0x5f, 0x21,
            0x5c, 0x5d, 0x26, 0x30, 0x55, 0x3c, 0x27, 0x28,
        ];
        proof {
            assert(core@ =~= core_key());
            assert(meta@ =~= meta_key());
        }
        Key { core, meta }
    }
}

/// The derived key that a decrypted key region holds: what is left when the
/// padding is stripped and the vendor tag of 17 bytes is dropped. A region
/// that holds no byte behind the tag holds no key.
pub open spec fn key_of_plaintext(plain: Seq<u8>) -> Option<Seq<u8>> {
    match unpadded(plain) {
        Some(body) => if body.len() > 17 {
            Some(body.skip(17))
        } else {
            None
        },
        None => None,
    }
}

/// The derived key of a container: its key region unmasked, decrypted with
/// the core key block by block, unpadded, and without the vendor tag.
pub open spec fn derived_key(core: Seq<u8>, key_blob: Seq<u8>) -> Option<Seq<u8>> {
    match decrypted(core, masked(key_blob, KEY_MASK)) {
        Some(plain) => key_of_plaintext(plain),
        None => None,
    }
}

/// Takes the derived key out of a decrypted key region: strips the padding
/// and drops the vendor tag. Bad padding, and a region with nothing behind
/// the tag, give `None`.
pub fn key_from_plaintext(plain: &[u8]) -> (res: Option<Vec<u8>>)
    ensures
        match res {
            Some(key) => key_of_plaintext(plain@) == Some(key@) && key@.len() > 0,
            None => key_of_plaintext(plain@) is None,
        },
{
    match unpad(plain) {
        Some(body) => {
            if body.len() > KEY_PREFIX_LENGTH {
                let key = slice_to_vec(
                    slice_subrange(body.as_slice(), KEY_PREFIX_LENGTH, body.len()),
                );
                Some(key)
            } else {
                None
            }
        },
        None => None,
    }
}

/// Derives the stream-cipher key from the key region of a container. The
/// result depends on the AES key and the region alone. `None` comes for an
/// AES key that is not 16 bytes long, a region that is not a whole number of
/// blocks, bad padding, and a region that holds nothing behind the vendor tag.
pub fn derive_key(core: &[u8], key_blob: &[u8]) -> (res: Option<Vec<u8>>)
    ensures
        match res {
            Some(key) => derived_key(core@, key_blob@) == Some(key@) && key@.len() > 0,
            None => derived_key(core@, key_blob@) is None,
        },
{
    let mut unmasked = slice_to_vec(key_blob);
    xor_bytes(unmasked.as_mut_slice(), KEY_MASK);
    match aes128_to_slice(core, unmasked.as_slice()) {
        Some(plain) => key_from_plaintext(plain.as_slice()),
        None => None,
    }
}

/// Key derivation is a function of its inputs: the same AES key and the same
/// key region never give two different results.
pub proof fn lemma_derived_key_deterministic(
    core: Seq<u8>,
    key_blob: Seq<u8>,
    first: Option<Seq<u8>>,
    second: Option<Seq<u8>>,
)
    requires
        first == derived_key(core, key_blob),
        second == derived_key(core, key_blob),
    ensures
        first == second,
{
}

} // verus!
