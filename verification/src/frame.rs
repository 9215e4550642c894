//! The frame parser: the fixed layout of a container, from its signature to
//! the start of the audio payload.

use vstd::prelude::*;
use crate::bytes::{le_u32, read_le_u32};
use crate::error::NcmError;
use crate::reader::Ncmfile;

verus! {

/// The eight bytes that every container starts with: `CTENFDAM` in ASCII.
pub open spec fn signature() -> Seq<u8> {
    seq![0x43u8, 0x54u8, 0x45u8, 0x4eu8, 0x46u8, 0x44u8, 0x41u8, 0x4du8]
}

/// The number of reserved bytes between the signature and the key region.
pub const KEY_GAP: u64 = 2;

/// The number of reserved bytes between the checksum and the cover region.
pub const COVER_GAP: u64 = 5;

/// The regions of a container that stand before its audio payload.
pub struct FrameView {
    pub key_blob: Seq<u8>,
    pub meta_blob: Seq<u8>,
    pub checksum: nat,
    pub cover: Seq<u8>,
    /// The number of bytes before the audio payload.
    pub header_size: nat,
}

/// The number of bytes that stand before the audio payload of a container
/// whose key, metadata and cover regions have the given lengths: signature,
/// gap, three length fields, checksum, gap, and the three regions.
pub open spec fn header_size(key_length: nat, meta_length: nat, cover_length: nat) -> nat {
    8 + 2 + 4 + key_length + 4 + meta_length + 4 + 5 + 4 + cover_length
}

/// The frame that the bytes `b` of a container hold. Bytes that do not start
/// with the signature are no container; a container that ends before its
/// last region does cannot be read.
pub open spec fn frame_of(b: Seq<u8>) -> Result<FrameView, NcmError> {
    if b.len() < 8 {
        Err(NcmError::FileReadError)
    } else if b.subrange(0, 8) != signature() {
        Err(NcmError::NotNcmFile)
    } else if b.len() < 14 {
        Err(NcmError::FileReadError)
    } else {
        let key_length = le_u32(b.subrange(10, 14)) as int;
        let meta_at = 14 + key_length;
        if b.len() < meta_at + 4 {
            Err(NcmError::FileReadError)
        } else {
            let meta_length = le_u32(b.subrange(meta_at, meta_at + 4)) as int;
            let checksum_at = meta_at + 4 + meta_length;
            if b.len() < checksum_at + 13 {
                Err(NcmError::FileReadError)
            } else {
                let cover_length = le_u32(b.subrange(checksum_at + 9, checksum_at + 13)) as int;
                let audio_at = checksum_at + 13 + cover_length;
                if b.len() < audio_at {
                    Err(NcmError::FileReadError)
                } else {
                    Ok(
                        FrameView {
                            key_blob: b.subrange(14, meta_at),
                            meta_blob: b.subrange(meta_at + 4, checksum_at),
                            checksum: le_u32(b.subrange(checksum_at, checksum_at + 4)),
                            cover: b.subrange(checksum_at + 13, audio_at),
                            header_size: audio_at as nat,
                        },
                    )
                }
            }
        }
    }
}

/// The regions of one container that stand before its audio payload. The
/// checksum is kept as it was read and is not checked against anything.
#[derive(Debug, Clone, PartialEq, Eq)]
pub struct RawFrame {
    pub key_blob: Vec<u8>,
    pub meta_blob: Vec<u8>,
    pub checksum: u32,
    pub cover: Vec<u8>,
    /// The number of bytes that stand before the audio payload.
    pub header_size: u64,
}

impl View for RawFrame {
    type V = FrameView;

    open spec fn view(&self) -> FrameView {
        FrameView {
            key_blob: self.key_blob@,
            meta_blob: self.meta_blob@,
            checksum: self.checksum as nat,
            cover: self.cover@,
            header_size: self.header_size as nat,
        }
    }
}

/// The size of the header of every frame is the sum of its fixed parts, 31
/// bytes, and its three regions.
pub proof fn lemma_frame_header_size(b: Seq<u8>)
    requires
        frame_of(b) is Ok,
    ensures
        frame_of(b)->Ok_0.header_size == header_size(
            frame_of(b)->Ok_0.key_blob.len(),
            frame_of(b)->Ok_0.meta_blob.len(),
            frame_of(b)->Ok_0.cover.len(),
        ),
        frame_of(b)->Ok_0.header_size <= b.len(),
{
}

/// Bytes that are at least as long as the signature and do not start with it
/// are refused as no container, whatever follows.
pub proof fn lemma_wrong_signature_is_refused(b: Seq<u8>)
    requires
        b.len() >= 8,
        b.subrange(0, 8) != signature(),
    ensures
        frame_of(b) == Err::<FrameView, NcmError>(NcmError::NotNcmFile),
{
}

/// Whether `magic` is the signature of a container.
fn is_signature(magic: &[u8]) -> (yes: bool)
    requires
        magic@.len() == 8,
    ensures
        yes == (magic@ == signature()),
{
    let yes = magic[0] == 0x43 && magic[1] == 0x54 && magic[2] == 0x45 && magic[3] == 0x4e
        && magic[4] == 0x46 && magic[5] == 0x44 && magic[6] == 0x41 && magic[7] == 0x4d;
    proof {
        let s = signature();
        assert(s.len() == 8 && s[0] == 0x43 && s[1] == 0x54 && s[2] == 0x45 && s[3] == 0x4e
            && s[4] == 0x46 && s[5] == 0x44 && s[6] == 0x41 && s[7] == 0x4d);
        if yes {
            assert(magic@ =~= s);
        }
    }
    yes
}

/// Reads a length field: four bytes at the cursor, in little-endian order.
fn read_length(file: &mut Ncmfile) -> (res: Result<u32, NcmError>)
    ensures
        final(file)@.wf(),
        match res {
            Ok(length) => old(file)@.can_read(4) && length == le_u32(old(file)@.peek(4))
                && final(file)@ == old(file)@.advance(4),
            Err(e) => !old(file)@.can_read(4) && e == NcmError::FileReadError && final(file)@
                == old(file)@,
        },
{
    match file.seekread(4) {
        Ok(bytes) => Ok(read_le_u32(bytes.as_slice())),
        Err(e) => Err(e),
    }
}

/// Reads the regions of the frame one after the other, from the cursor on.
fn read_regions(file: &mut Ncmfile) -> (res: Result<RawFrame, NcmError>)
    ensures
        final(file)@.wf(),
        final(file)@ == old(file)@.at(final(file)@.cursor),
        final(file)@.cursor >= old(file)@.cursor,
        match res {
            Ok(frame) => frame_of(old(file)@.remaining()) == Ok::<FrameView, NcmError>(frame@)
                && final(file)@.cursor == old(file)@.cursor + frame@.header_size,
            Err(e) => frame_of(old(file)@.remaining()) == Err::<FrameView, NcmError>(e),
        },
{
    let ghost start = file@.cursor as int;
    let ghost whole = file@.bytes;
    let ghost b = file@.remaining();
    let begin = file.position();
    let magic = file.seekread(8)?;
    proof {
        assert(magic@ =~= b.subrange(0, 8));
    }
    if !is_signature(magic.as_slice()) {
        return Err(NcmError::NotNcmFile);
    }
    file.skip(KEY_GAP)?;
    proof {
        if file@.can_read(4) {
            assert(file@.peek(4) =~= b.subrange(10, 14));
        }
    }
    let key_length = read_length(file)?;
    let ghost meta_at = 14 + key_length as int;
    let key_blob = file.seekread(key_length as u64)?;
    proof {
        assert(key_blob@ =~= b.subrange(14, meta_at));
        if file@.can_read(4) {
            assert(file@.peek(4) =~= b.subrange(meta_at, meta_at + 4));
        }
    }
    let meta_length = read_length(file)?;
    let ghost checksum_at = meta_at + 4 + meta_length as int;
    let meta_blob = file.seekread(meta_length as u64)?;
    proof {
        assert(meta_blob@ =~= b.subrange(meta_at + 4, checksum_at));
        if file@.can_read(4) {
            assert(file@.peek(4) =~= b.subrange(checksum_at, checksum_at + 4));
        }
    }
    let checksum = read_length(file)?;
    file.skip(COVER_GAP)?;
    proof {
        if file@.can_read(4) {
            assert(file@.peek(4) =~= b.subrange(checksum_at + 9, checksum_at + 13));
        }
    }
    let cover_length = read_length(file)?;
    let ghost audio_at = checksum_at + 13 + cover_length as int;
    let cover = file.seekread(cover_length as u64)?;
    proof {
        assert(cover@ =~= b.subrange(checksum_at + 13, audio_at));
    }
    let header_size = file.position() - begin;
    Ok(RawFrame { key_blob, meta_blob, checksum, cover, header_size })
}

/// Reads the frame of a container from the cursor on: the signature, the key
/// region, the metadata region, the checksum and the cover region, with the
/// reserved gaps skipped. Afterwards the cursor stands at the audio payload.
/// Where the frame cannot be read, the cursor stays where it was.
pub fn parse_frame(file: &mut Ncmfile) -> (res: Result<RawFrame, NcmError>)
    ensures
        final(file)@.wf(),
        match res {
            Ok(frame) => frame_of(old(file)@.remaining()) == Ok::<FrameView, NcmError>(frame@)
                && final(file)@ == old(file)@.advance(frame@.header_size),
            Err(e) => frame_of(old(file)@.remaining()) == Err::<FrameView, NcmError>(e)
                && final(file)@ == old(file)@,
        },
{
    let begin = file.position();
    let res = read_regions(file);
    if res.is_err() {
        file.rewind(begin);
    }
    res
}

} // verus!
