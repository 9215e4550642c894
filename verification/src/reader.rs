//! The container handle: the bytes of one container file, the names derived
//! from the file's name, and a cursor that every read moves.

use vstd::prelude::*;
use vstd::slice::*;
use vstd::string::*;
use crate::bytes::{masked, xor_bytes};
use crate::error::NcmError;
use crate::filename::{file_stem, is_file_name, stem_of};

verus! {

/// What a container handle stands for: the file's bytes, how far they have
/// been read, and the file's name without and with its extension.
pub struct NcmfileView {
    pub bytes: Seq<u8>,
    pub cursor: nat,
    pub filename: Seq<char>,
    pub fullfilename: Seq<char>,
}

impl NcmfileView {
    /// The cursor lies inside the container or at its end.
    pub open spec fn wf(self) -> bool {
        self.cursor <= self.bytes.len()
    }

    /// Whether `length` more bytes can be read at the cursor.
    pub open spec fn can_read(self, length: nat) -> bool {
        self.cursor + length <= self.bytes.len()
    }

    /// The `length` bytes that stand at the cursor.
    pub open spec fn peek(self, length: nat) -> Seq<u8> {
        self.bytes.subrange(self.cursor as int, (self.cursor + length) as int)
    }

    /// The bytes from the cursor to the end of the container.
    pub open spec fn remaining(self) -> Seq<u8> {
        self.bytes.skip(self.cursor as int)
    }

    /// The same container with the cursor at `cursor`.
    pub open spec fn at(self, cursor: nat) -> NcmfileView {
        NcmfileView { cursor, ..self }
    }

    /// The same container with the cursor moved forward by `length`.
    pub open spec fn advance(self, length: nat) -> NcmfileView {
        self.at(self.cursor + length)
    }
}

/// One container file, held in memory, with a cursor that every read moves.
#[derive(Debug)]
pub struct Ncmfile {
    data: Vec<u8>,
    filename: String,
    fullfilename: String,
    position: u64,
}

impl View for Ncmfile {
    type V = NcmfileView;

    closed spec fn view(&self) -> NcmfileView {
        NcmfileView {
            bytes: self.data@,
            cursor: self.position as nat,
            filename: self.filename@,
            fullfilename: self.fullfilename@,
        }
    }
}

impl Ncmfile {
    #[verifier::type_invariant]
    spec fn cursor_in_bounds(&self) -> bool {
        self.position <= self.data@.len()
    }

    /// Makes the handle of a container from the file's name (the last
    /// component of its path) and the file's bytes, with the cursor at the
    /// start. A name that no file can have is refused.
    pub fn new(fullfilename: &str, data: Vec<u8>) -> (res: Result<Ncmfile, NcmError>)
        ensures
            match res {
                Ok(file) => is_file_name(fullfilename@) && file@ == (NcmfileView {
                    bytes: data@,
                    cursor: 0,
                    filename: stem_of(fullfilename@),
                    fullfilename: fullfilename@,
                }),
                Err(e) => !is_file_name(fullfilename@) && e == NcmError::CannotReadFileName,
            },
    {
        let length = fullfilename.unicode_len();
        let only_dots = (length == 1 && fullfilename.get_char(0) == '.') || (length == 2
            && fullfilename.get_char(0) == '.' && fullfilename.get_char(1) == '.');
        proof {
            let dot = seq!['.'];
            let dots = seq!['.', '.'];
            assert(dot.len() == 1 && dot[0] == '.');
            assert(dots.len() == 2 && dots[0] == '.' && dots[1] == '.');
            if only_dots {
                assert(fullfilename@ =~= dot || fullfilename@ =~= dots);
            }
        }
        if length == 0 || only_dots {
            return Err(NcmError::CannotReadFileName);
        }
        Ok(
            Ncmfile {
                data,
                filename: file_stem(fullfilename),
                fullfilename: String::from_str(fullfilename),
                position: 0,
            },
        )
    }

    /// The file's name without its extension.
    pub fn filename(&self) -> (name: &str)
        ensures
            name@ == self@.filename,
    {
        self.filename.as_str()
    }

    /// The file's name with its extension.
    pub fn fullfilename(&self) -> (name: &str)
        ensures
            name@ == self@.fullfilename,
    {
        self.fullfilename.as_str()
    }

    /// The length of the container in bytes.
    pub fn size(&self) -> (size: u64)
        ensures
            size == self@.bytes.len(),
    {
        self.data.len() as u64
    }

    /// Where the next read starts; never past the end of the container.
    pub fn position(&self) -> (position: u64)
        ensures
            position == self@.cursor,
            self@.wf(),
    {
        proof {
            use_type_invariant(self);
        }
        self.position
    }

    /// Copies the bytes from `start` up to `end` out of the container.
    fn copy_range(&self, start: u64, end: u64) -> (out: Vec<u8>)
        requires
            start <= end <= self@.bytes.len(),
        ensures
            out@ == self@.bytes.subrange(start as int, end as int),
    {
        let length = self.data.len();
        assert(end <= length);
        slice_to_vec(slice_subrange(self.data.as_slice(), start as usize, end as usize))
    }

    /// Reads exactly `length` bytes at the cursor and moves the cursor past
    /// them. Where fewer remain the read fails and the cursor stays.
    pub fn seekread(&mut self, length: u64) -> (res: Result<Vec<u8>, NcmError>)
        ensures
            old(self)@.wf(),
            final(self)@.wf(),
            match res {
                Ok(bytes) => old(self)@.can_read(length as nat) && bytes@ == old(self)@.peek(
                    length as nat,
                ) && final(self)@ == old(self)@.advance(length as nat),
                Err(e) => !old(self)@.can_read(length as nat) && e == NcmError::FileReadError
                    && final(self)@ == old(self)@,
            },
    {
        proof {
            use_type_invariant(&*self);
        }
        let size = self.size();
        if length > size - self.position {
            return Err(NcmError::FileReadError);
        }
        let out = self.copy_range(self.position, self.position + length);
        self.position = self.position + length;
        Ok(out)
    }

    /// Reads exactly `length` bytes at `offset` and leaves the cursor behind
    /// them. The read fails, and the cursor stays, where fewer than `length`
    /// bytes remain at the cursor or at `offset`.
    pub fn seekread_from(&mut self, offset: u64, length: u64) -> (res: Result<Vec<u8>, NcmError>)
        ensures
            old(self)@.wf(),
            final(self)@.wf(),
            match res {
                Ok(bytes) => old(self)@.can_read(length as nat) && offset + length <= old(
                    self,
                )@.bytes.len() && bytes@ == old(self)@.bytes.subrange(
                    offset as int,
                    offset + length,
                ) && final(self)@ == old(self)@.at((offset + length) as nat),
                Err(e) => !(old(self)@.can_read(length as nat) && offset + length <= old(
                    self,
                )@.bytes.len()) && e == NcmError::FileReadError && final(self)@ == old(self)@,
            },
    {
        proof {
            use_type_invariant(&*self);
        }
        let size = self.size();
        if length > size - self.position || offset > size || length > size - offset {
            return Err(NcmError::FileReadError);
        }
        let out = self.copy_range(offset, offset + length);
        self.position = offset + length;
        Ok(out)
    }

    /// Reads everything from the cursor to the end of the container, and
    /// leaves the cursor at the end. This read cannot fail.
    pub fn seekread_to_end(&mut self) -> (res: Result<Vec<u8>, NcmError>)
        ensures
            old(self)@.wf(),
            final(self)@.wf(),
            res is Ok,
            res->Ok_0@ == old(self)@.remaining(),
            final(self)@ == old(self)@.at(old(self)@.bytes.len()),
    {
        proof {
            use_type_invariant(&*self);
        }
        let size = self.size();
        let out = self.copy_range(self.position, size);
        self.position = size;
        Ok(out)
    }

    /// Reads up to `length` bytes at the cursor: all of them where that many
    /// remain, else the ones that do, which may be none. The cursor moves
    /// past what was read.
    pub fn seekread_no_error(&mut self, length: u64) -> (bytes: Vec<u8>)
        ensures
            old(self)@.wf(),
            final(self)@.wf(),
            bytes@ == old(self)@.remaining().take(
                if old(self)@.can_read(length as nat) {
                    length as int
                } else {
                    old(self)@.remaining().len() as int
                },
            ),
            final(self)@ == old(self)@.advance(bytes@.len()),
    {
        proof {
            use_type_invariant(&*self);
        }
        let size = self.size();
        let end = if length > size - self.position {
            size
        } else {
            self.position + length
        };
        let out = self.copy_range(self.position, end);
        self.position = end;
        out
    }

    /// Moves the cursor forward by `length` without reading. Where fewer
    /// bytes remain the skip fails and the cursor stays.
    pub fn skip(&mut self, length: u64) -> (res: Result<(), NcmError>)
        ensures
            old(self)@.wf(),
            final(self)@.wf(),
            match res {
                Ok(_) => old(self)@.can_read(length as nat) && final(self)@ == old(
                    self,
                )@.advance(length as nat),
                Err(e) => !old(self)@.can_read(length as nat) && e == NcmError::FileReadError
                    && final(self)@ == old(self)@,
            },
    {
        proof {
            use_type_invariant(&*self);
        }
        let size = self.size();
        if length > size - self.position {
            return Err(NcmError::FileReadError);
        }
        self.position = self.position + length;
        Ok(())
    }

    /// Puts the cursor back to an earlier place.
    pub(crate) fn rewind(&mut self, position: u64)
        requires
            position <= old(self)@.cursor,
        ensures
            final(self)@ == old(self)@.at(position as nat),
    {
        proof {
            use_type_invariant(&*self);
        }
        self.position = position;
    }

    /// Undoes the mask that hides the key region: XORs every byte with `0x64`.
    pub fn parse_key(key: &mut [u8]) -> (out: &[u8])
        ensures
            final(key)@ == masked(old(key)@, 0x64),
            out@ == final(key)@,
    {
        xor_bytes(key, 0x64);
        key
    }
}

} // verus!
