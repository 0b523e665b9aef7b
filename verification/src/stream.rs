use vstd::prelude::*;
use vstd::slice::*;
use vstd::utf8::*;

use crate::endian::{spec_be_u16, spec_be_u32, spec_be_u64, u16_from_be, u32_from_be};
use crate::error::{Error, ErrorKind};
use crate::text::{decode_utf16, string_from_utf16, string_from_utf8};

verus! {

/// The big-endian 16-bit units held by a run of bytes, two bytes to a unit; a
/// last byte without a partner is left out.
pub open spec fn spec_be_units(bytes: Seq<u8>) -> Seq<u16> {
    Seq::new(bytes.len() / 2, |i: int| spec_be_u16(bytes.subrange(2 * i, 2 * i + 2)))
}

/// What reading a run of bytes as UTF-8 text gives.
pub open spec fn spec_decode_utf8(bytes: Seq<u8>) -> Result<Seq<char>, ErrorKind> {
    if valid_utf8(bytes) {
        Ok(decode_utf8(bytes))
    } else {
        Err(ErrorKind::StringDecode)
    }
}

/// What reading a run of bytes as big-endian UTF-16 text gives.
pub open spec fn spec_decode_utf16(bytes: Seq<u8>) -> Result<Seq<char>, ErrorKind> {
    match decode_utf16(spec_be_units(bytes)) {
        Some(chars) => Ok(chars),
        None => Err(ErrorKind::StringDecode),
    }
}

/// A source of bytes that is read front to back.
///
/// A read of `n` bytes takes exactly the next `n` bytes. Where fewer than `n`
/// are left it fails with `ErrorKind::Io` and takes none.
pub trait ReadData {
    /// The bytes that have not been read yet.
    spec fn unread(&self) -> Seq<u8>;

    /// True where this reader is the reader `before` after it was read `n`
    /// bytes further, with nothing else about it changed.
    spec fn advanced_from(&self, before: &Self, n: nat) -> bool;

    /// Reads one byte.
    fn read_u8(&mut self) -> (r: Result<u8, Error>)
        ensures
            match r {
                Ok(v) => {
                    &&& old(self).unread().len() >= 1
                    &&& v == old(self).unread()[0]
                    &&& final(self).unread() == old(self).unread().skip(1)
                    &&& final(self).advanced_from(old(self), 1)
                },
                Err(e) => {
                    &&& old(self).unread().len() < 1
                    &&& e.kind == ErrorKind::Io
                    &&& final(self).unread() == old(self).unread()
                    &&& final(self).advanced_from(old(self), 0)
                },
            },
    ;

    /// Reads a big-endian 16-bit unsigned integer.
    fn read_u16(&mut self) -> (r: Result<u16, Error>)
        ensures
            match r {
                Ok(v) => {
                    &&& old(self).unread().len() >= 2
                    &&& v == spec_be_u16(old(self).unread().take(2))
                    &&& final(self).unread() == old(self).unread().skip(2)
                    &&& final(self).advanced_from(old(self), 2)
                },
                Err(e) => {
                    &&& old(self).unread().len() < 2
                    &&& e.kind == ErrorKind::Io
                    &&& final(self).unread() == old(self).unread()
                    &&& final(self).advanced_from(old(self), 0)
                },
            },
    ;

    /// Reads a big-endian 32-bit unsigned integer.
    fn read_u32(&mut self) -> (r: Result<u32, Error>)
        ensures
            match r {
                Ok(v) => {
                    &&& old(self).unread().len() >= 4
                    &&& v == spec_be_u32(old(self).unread().take(4))
                    &&& final(self).unread() == old(self).unread().skip(4)
                    &&& final(self).advanced_from(old(self), 4)
                },
                Err(e) => {
                    &&& old(self).unread().len() < 4
                    &&& e.kind == ErrorKind::Io
                    &&& final(self).unread() == old(self).unread()
                    &&& final(self).advanced_from(old(self), 0)
                },
            },
    ;

    /// Reads a big-endian 64-bit unsigned integer.
    fn read_u64(&mut self) -> (r: Result<u64, Error>)
        ensures
            match r {
                Ok(v) => {
                    &&& old(self).unread().len() >= 8
                    &&& v == spec_be_u64(old(self).unread().take(8))
                    &&& final(self).unread() == old(self).unread().skip(8)
                    &&& final(self).advanced_from(old(self), 8)
                },
                Err(e) => {
                    &&& old(self).unread().len() < 8
                    &&& e.kind == ErrorKind::Io
                    &&& final(self).unread() == old(self).unread()
                    &&& final(self).advanced_from(old(self), 0)
                },
            },
    ;

    /// Reads the next `len` bytes.
    fn read_u8_vec(&mut self, len: u64) -> (r: Result<Vec<u8>, Error>)
        ensures
            match r {
                Ok(v) => {
                    &&& old(self).unread().len() >= len
                    &&& v@ == old(self).unread().take(len as int)
                    &&& final(self).unread() == old(self).unread().skip(len as int)
                    &&& final(self).advanced_from(old(self), len as nat)
                },
                Err(e) => {
                    &&& old(self).unread().len() < len
                    &&& e.kind == ErrorKind::Io
                    &&& final(self).unread() == old(self).unread()
                    &&& final(self).advanced_from(old(self), 0)
                },
            },
    ;

    /// Reads the next `len` bytes as UTF-8 text. Bytes that are not valid
    /// UTF-8 are taken all the same, and the read fails with
    /// `ErrorKind::StringDecode`.
    fn read_utf8(&mut self, len: u64) -> (r: Result<String, Error>)
        ensures
            old(self).unread().len() < len ==> {
                &&& r matches Err(e)
                &&& e.kind == ErrorKind::Io
                &&& final(self).unread() == old(self).unread()
                &&& final(self).advanced_from(old(self), 0)
            },
            old(self).unread().len() >= len ==> {
                &&& final(self).unread() == old(self).unread().skip(len as int)
                &&& final(self).advanced_from(old(self), len as nat)
                &&& match spec_decode_utf8(old(self).unread().take(len as int)) {
                    Ok(chars) => r matches Ok(s) && s@ == chars,
                    Err(kind) => r matches Err(e) && e.kind == kind,
                }
            },
    ;

    /// Reads the next `len` bytes as big-endian UTF-16 text. Code units that
    /// are not valid UTF-16 are taken all the same, and the read fails with
    /// `ErrorKind::StringDecode`.
    fn read_utf16(&mut self, len: u64) -> (r: Result<String, Error>)
        ensures
            old(self).unread().len() < len ==> {
                &&& r matches Err(e)
                &&& e.kind == ErrorKind::Io
                &&& final(self).unread() == old(self).unread()
                &&& final(self).advanced_from(old(self), 0)
            },
            old(self).unread().len() >= len ==> {
                &&& final(self).unread() == old(self).unread().skip(len as int)
                &&& final(self).advanced_from(old(self), len as nat)
                &&& match spec_decode_utf16(old(self).unread().take(len as int)) {
                    Ok(chars) => r matches Ok(s) && s@ == chars,
                    Err(kind) => r matches Err(e) && e.kind == kind,
                }
            },
    ;
}

/// A run of bytes held in memory, with a read position.
///
/// The position may stand behind the last byte: nothing can be read there.
#[derive(Clone, Debug, PartialEq, Eq)]
pub struct Stream {
    /// The bytes of the stream.
    pub data: Vec<u8>,
    /// The offset of the byte that is read next.
    pub pos: u64,
}

impl Stream {
    /// A stream over `data` that stands at its first byte.
    pub fn new(data: Vec<u8>) -> (s: Stream)
        ensures
            s.data == data,
            s.pos == 0,
    {
        Stream { data, pos: 0 }
    }

    /// The length of a stream fits in a machine word.
    pub proof fn lemma_len_fits(&self)
        ensures
            self.data@.len() <= usize::MAX,
    {
        assert(self.data.len() == self.data@.len());
    }

    /// The offset of the byte that is read next.
    pub fn position(&self) -> (p: u64)
        ensures
            p == self.pos,
    {
        self.pos
    }

    /// Moves the position to the offset `pos`, which may lie behind the end.
    pub fn seek_to(&mut self, pos: u64)
        ensures
            final(self).data == old(self).data,
            final(self).pos == pos,
    {
        self.pos = pos;
    }

    /// Moves the position forward by `n` bytes, also past the end. Fails with
    /// `ErrorKind::Io`, and moves nothing, where the new offset does not fit
    /// in 64 bits.
    pub fn skip(&mut self, n: u64) -> (r: Result<(), Error>)
        ensures
            final(self).data == old(self).data,
            match r {
                Ok(_) => old(self).pos + n <= u64::MAX && final(self).pos == old(self).pos + n,
                Err(e) => {
                    &&& old(self).pos + n > u64::MAX
                    &&& e.kind == ErrorKind::Io
                    &&& final(self).pos == old(self).pos
                },
            },
    {
        match self.pos.checked_add(n) {
            Some(pos) => {
                self.pos = pos;
                Ok(())
            },
            None => Err(Error::io("seek to an offset that does not fit in 64 bits")),
        }
    }

    /// Takes the next `len` bytes as a slice, without copying them.
    fn next_bytes(&mut self, len: usize) -> (r: Result<&[u8], Error>)
        ensures
            final(self).data == old(self).data,
            match r {
                Ok(b) => {
                    &&& old(self).unread().len() >= len
                    &&& b@ == old(self).unread().take(len as int)
                    &&& final(self).pos == old(self).pos + len
                },
                Err(e) => {
                    &&& old(self).unread().len() < len
                    &&& e.kind == ErrorKind::Io
                    &&& final(self).pos == old(self).pos
                },
            },
    {
        let total: usize = self.data.len();
        if len == 0 {
            let bytes = slice_subrange(self.data.as_slice(), 0, 0);
            assert(bytes@ =~= self.unread().take(0));
            return Ok(bytes);
        }
        if self.pos >= total as u64 || total - (self.pos as usize) < len {
            return Err(Error::io("unexpected end of stream"));
        }
        let start: usize = self.pos as usize;
        let end: usize = start + len;
        self.pos = self.pos + len as u64;
        let bytes = slice_subrange(self.data.as_slice(), start, end);
        assert(bytes@ =~= old(self).unread().take(len as int));
        Ok(bytes)
    }
}

/// The number of bytes between the position of `stream` and its end; zero
/// where the position stands behind the end.
pub fn remaining_stream_len(stream: &Stream) -> (n: u64)
    ensures
        n == stream.unread().len(),
        n <= usize::MAX,
{
    let len: u64 = stream.data.len() as u64;
    if stream.pos <= len {
        len - stream.pos
    } else {
        0
    }
}

impl ReadData for Stream {
    open spec fn unread(&self) -> Seq<u8> {
        if self.pos <= self.data@.len() {
            self.data@.skip(self.pos as int)
        } else {
            Seq::empty()
        }
    }

    open spec fn advanced_from(&self, before: &Self, n: nat) -> bool {
        self.data == before.data && self.pos == before.pos + n
    }

    fn read_u8(&mut self) -> (r: Result<u8, Error>) {
        let b = self.next_bytes(1)?;
        Ok(b[0])
    }

    fn read_u16(&mut self) -> (r: Result<u16, Error>) {
        let b = self.next_bytes(2)?;
        let v = u16_from_be(b[0], b[1]);
        assert(b@ =~= seq![b@[0], b@[1]]);
        Ok(v)
    }

    fn read_u32(&mut self) -> (r: Result<u32, Error>) {
        let b = self.next_bytes(4)?;
        let v = u32_from_be(b[0], b[1], b[2], b[3]);
        assert(b@ =~= seq![b@[0], b@[1], b@[2], b@[3]]);
        Ok(v)
    }

    fn read_u64(&mut self) -> (r: Result<u64, Error>) {
        let b = self.next_bytes(8)?;
        let high = u32_from_be(b[0], b[1], b[2], b[3]);
        let low = u32_from_be(b[4], b[5], b[6], b[7]);
        assert(b@.subrange(0, 4) =~= seq![b@[0], b@[1], b@[2], b@[3]]);
        assert(b@.subrange(4, 8) =~= seq![b@[4], b@[5], b@[6], b@[7]]);
        Ok((high as u64) * 0x1_0000_0000 + (low as u64))
    }

    fn read_u8_vec(&mut self, len: u64) -> (r: Result<Vec<u8>, Error>) {
        if remaining_stream_len(self) < len {
            return Err(Error::io("unexpected end of stream"));
        }
        let b = self.next_bytes(len as usize)?;
        Ok(slice_to_vec(b))
    }

    fn read_utf8(&mut self, len: u64) -> (r: Result<String, Error>) {
        let bytes = self.read_u8_vec(len)?;
        match string_from_utf8(bytes) {
            Some(s) => Ok(s),
            None => Err(Error::new(ErrorKind::StringDecode, "data is not valid utf-8".to_owned())),
        }
    }

    fn read_utf16(&mut self, len: u64) -> (r: Result<String, Error>) {
        if remaining_stream_len(self) < len {
            return Err(Error::io("unexpected end of stream"));
        }
        let b = self.next_bytes(len as usize)?;
        let count: usize = b.len() / 2;
        let mut units: Vec<u16> = Vec::with_capacity(count);
        let mut i: usize = 0;
        while i < count
            invariant
                count == b@.len() / 2,
                b@.len() <= usize::MAX,
                i <= count,
                units@ == spec_be_units(b@).take(i as int),
            decreases count - i,
        {
            let u = u16_from_be(b[2 * i], b[2 * i + 1]);
            assert(b@.subrange(2 * i, 2 * i + 2) =~= seq![b@[2 * i], b@[2 * i + 1]]);
            units.push(u);
            assert(units@ =~= spec_be_units(b@).take(i + 1));
            i += 1;
        }
        assert(units@ =~= spec_be_units(b@));
        match string_from_utf16(&units) {
            Some(s) => Ok(s),
            None => Err(Error::new(ErrorKind::StringDecode, "data is not valid utf-16".to_owned())),
        }
    }
}

} // verus!
