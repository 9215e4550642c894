//! The decode of one container: frame, key, metadata, audio, and the record
//! of what is to be written.

use vstd::prelude::*;
use vstd::string::*;
use crate::error::NcmError;
use crate::filename::{output_filename, output_name};
use crate::frame::{frame_of, lemma_frame_header_size, parse_frame, signature, FrameView};
use crate::keys::{core_key, derive_key, derived_key, meta_key, Key};
use crate::metadata::{decode_metadata, metadata_of, Metadata, MetadataView};
use crate::reader::{Ncmfile, NcmfileView};
use crate::stream::{
    key_box, lemma_stream_by_chunks, stream_applied, KeyBox, CHUNK_SIZE,
};

verus! {

/// What a decoded container stands for.
pub struct OutputView {
    pub filename: Seq<char>,
    pub audio: Seq<u8>,
    pub cover: Seq<u8>,
    pub metadata: MetadataView,
}

/// What the decode of one container gives: the name of the file to write,
/// the decoded audio, the cover image as the container holds it, and the
/// metadata record.
#[derive(Debug, Clone, PartialEq, Eq)]
pub struct DumpOutput {
    /// The container's name without its extension, a dot, and the format.
    pub filename: String,
    pub audio: Vec<u8>,
    pub cover: Vec<u8>,
    pub metadata: Metadata,
}

impl View for DumpOutput {
    type V = OutputView;

    open spec fn view(&self) -> OutputView {
        OutputView {
            filename: self.filename@,
            audio: self.audio@,
            cover: self.cover@,
            metadata: self.metadata@,
        }
    }
}

/// The decode of a container from its cursor on, under the AES keys `core`
/// and `meta`. The frame is parsed first, then the key is derived, then the
/// metadata decoded, then the audio payload decrypted. The first stage that
/// fails gives the error: a frame that cannot be read its own, a key region
/// that holds no key `NotNcmFile`, a metadata region that holds no record
/// `CannotReadMetaInfo`.
pub open spec fn decoded(core: Seq<u8>, meta: Seq<u8>, file: NcmfileView) -> Result<
    OutputView,
    NcmError,
> {
    match frame_of(file.remaining()) {
        Ok(frame) => match derived_key(core, frame.key_blob) {
            Some(key) => match metadata_of(meta, frame.meta_blob) {
                Some(metadata) => Ok(
                    OutputView {
                        filename: output_name(file.filename, metadata.format),
                        audio: stream_applied(
                            key_box(key),
                            file.remaining().skip(frame.header_size as int),
                        ),
                        cover: frame.cover,
                        metadata,
                    },
                ),
                None => Err(NcmError::CannotReadMetaInfo),
            },
            None => Err(NcmError::NotNcmFile),
        },
        Err(e) => Err(e),
    }
}

/// The decoded audio is as long as the container's payload: the bytes that
/// remain of the container less the size of its header.
pub proof fn lemma_audio_length(core: Seq<u8>, meta: Seq<u8>, file: NcmfileView)
    requires
        file.wf(),
        decoded(core, meta, file) is Ok,
    ensures
        frame_of(file.remaining()) is Ok,
        decoded(core, meta, file)->Ok_0.audio.len() == file.remaining().len() - frame_of(
            file.remaining(),
        )->Ok_0.header_size,
{
    lemma_frame_header_size(file.remaining());
}

/// A container that holds at least eight bytes at its cursor, and other
/// bytes than the signature, is refused with `NotNcmFile`, whatever the keys.
pub proof fn lemma_wrong_signature(core: Seq<u8>, meta: Seq<u8>, file: NcmfileView)
    requires
        file.remaining().len() >= 8,
        file.remaining().subrange(0, 8) != signature(),
    ensures
        decoded(core, meta, file) == Err::<OutputView, NcmError>(NcmError::NotNcmFile),
{
}

/// Reads the audio payload from the cursor to the end of the container in
/// pieces of `CHUNK_SIZE` bytes and applies the keystream to each piece.
fn decode_audio(file: &mut Ncmfile, key_box: &KeyBox) -> (audio: Vec<u8>)
    ensures
        final(file)@.wf(),
        final(file)@ == old(file)@.at(old(file)@.bytes.len()),
        audio@ == stream_applied(key_box@, old(file)@.remaining()),
{
    let begin = file.position();
    let ghost payload = file@.remaining();
    let ghost whole = stream_applied(key_box@, payload);
    let mut audio: Vec<u8> = Vec::new();
    loop
        invariant
            file@.wf(),
            file@ == old(file)@.at(file@.cursor),
            begin == old(file)@.cursor,
            begin <= file@.cursor,
            payload == old(file)@.remaining(),
            whole == stream_applied(key_box@, payload),
            audio@ == whole.take(file@.cursor - begin),
            (file@.cursor - begin) % (CHUNK_SIZE as int) == 0 || file@.cursor
                == file@.bytes.len(),
        ensures
            file@.wf(),
            file@ == old(file)@.at(old(file)@.bytes.len()),
            audio@ == whole,
        decreases file@.bytes.len() - file@.cursor,
    {
        let ghost done = file@.cursor - begin;
        let ghost before = file@;
        let mut chunk = file.seekread_no_error(CHUNK_SIZE);
        if chunk.len() == 0 {
            proof {
                assert(before.cursor == before.bytes.len());
                assert(whole.take(done) == whole);
            }
            break;
        }
        proof {
            let n = chunk@.len() as int;
            assert(chunk@ =~= payload.subrange(done, done + n));
            lemma_stream_by_chunks(key_box@, payload, done, done + n);
        }
        let ghost read = chunk@;
        key_box.apply(chunk.as_mut_slice());
        proof {
            assert(audio@ + chunk@ =~= whole.take(done + read.len()));
        }
        audio.append(&mut chunk);
    }
    audio
}

/// Decodes the container from its cursor on, under the given AES keys: parses
/// the frame, derives the key, decodes the metadata, makes the substitution
/// table and decrypts the audio payload. On success the cursor stands at the
/// end of the container; on failure it stands where it stood.
pub fn dump(ncmfile: &mut Ncmfile, keys: &Key) -> (res: Result<DumpOutput, NcmError>)
    ensures
        final(ncmfile)@.wf(),
        match res {
            Ok(output) => decoded(keys.core@, keys.meta@, old(ncmfile)@) == Ok::<
                OutputView,
                NcmError,
            >(output@) && final(ncmfile)@ == old(ncmfile)@.at(old(ncmfile)@.bytes.len())
                && output@.audio.len() + frame_of(old(ncmfile)@.remaining())->Ok_0.header_size
                == old(ncmfile)@.remaining().len(),
            Err(e) => decoded(keys.core@, keys.meta@, old(ncmfile)@) == Err::<
                OutputView,
                NcmError,
            >(e) && final(ncmfile)@ == old(ncmfile)@,
        },
{
    let begin = ncmfile.position();
    let frame = parse_frame(ncmfile)?;
    let key = match derive_key(keys.core.as_slice(), frame.key_blob.as_slice()) {
        Some(key) => key,
        None => {
            ncmfile.rewind(begin);
            return Err(NcmError::NotNcmFile);
        },
    };
    let metadata = match decode_metadata(keys.meta.as_slice(), frame.meta_blob.as_slice()) {
        Ok(metadata) => metadata,
        Err(e) => {
            ncmfile.rewind(begin);
            return Err(e);
        },
    };
    let key_box = KeyBox::new(key.as_slice());
    proof {
        assert(ncmfile@.remaining() =~= old(ncmfile)@.remaining().skip(
            frame@.header_size as int,
        ));
    }
    let audio = decode_audio(ncmfile, &key_box);
    let filename = output_filename(ncmfile.filename(), metadata.format.as_str());
    Ok(DumpOutput { filename, audio, cover: frame.cover, metadata })
}

impl Ncmfile {
    /// Decodes the container with the keys that every container of this
    /// format is made with. All that `dump` with given keys promises holds.
    pub fn dump(&mut self) -> (res: Result<DumpOutput, NcmError>)
        ensures
            final(self)@.wf(),
            match res {
                Ok(output) => decoded(core_key(), meta_key(), old(self)@) == Ok::<
                    OutputView,
                    NcmError,
                >(output@) && final(self)@ == old(self)@.at(old(self)@.bytes.len())
                    && output@.audio.len() + frame_of(old(self)@.remaining())->Ok_0.header_size
                    == old(self)@.remaining().len(),
                Err(e) => decoded(core_key(), meta_key(), old(self)@) == Err::<
                    OutputView,
                    NcmError,
                >(e) && final(self)@ == old(self)@,
            },
    {
        let keys = Key::fixed();
        dump(self, &keys)
    }
}

} // verus!
