use vstd::prelude::*;

use crate::endian::{
    lemma_u32_be_round_trip, lemma_u64_be_round_trip, push_be_u32, push_be_u64, spec_be_u32,
    spec_be_u64, spec_u32_be_bytes, spec_u64_be_bytes, u32_from_be,
};
use crate::error::{Error, ErrorKind};
use crate::stream::{remaining_stream_len, ReadData, Stream};

verus! {

/// The type code of the movie header atom, `mvhd`.
pub const MOVIE_HEADER: u32 = 0x6d76_6864;

/// The type code of the track atom, `trak`.
pub const TRACK: u32 = 0x7472_616b;

/// The type code of the media atom, `mdia`.
pub const MEDIA: u32 = 0x6d64_6961;

/// The four byte type code of an atom, held as the big-endian value of its
/// bytes.
#[derive(Clone, Copy, Debug, PartialEq, Eq, Structural)]
pub struct Fourcc(pub u32);

impl Fourcc {
    /// The type code made of the four given bytes.
    pub fn from_bytes(bytes: [u8; 4]) -> (f: Fourcc)
        ensures
            f.0 == spec_be_u32(bytes@),
    {
        let v = u32_from_be(bytes[0], bytes[1], bytes[2], bytes[3]);
        assert(bytes@ =~= seq![bytes@[0], bytes@[1], bytes@[2], bytes@[3]]);
        Fourcc(v)
    }
}

/// The length in bytes of an atom's head: 16 where the size is held in 64
/// bits, 8 where it is held in 32.
pub open spec fn spec_head_len(ext: bool) -> u64 {
    if ext {
        16
    } else {
        8
    }
}

/// The size that an atom declares in its head: the length of head and content
/// together, and whether the head holds it in 64 bits.
#[derive(Clone, Copy, Debug, PartialEq, Eq, Structural)]
pub struct Size {
    /// Whether the head holds the size in 64 bits.
    pub ext: bool,
    /// The length of the atom, its head included.
    pub len: u64,
}

impl Size {
    /// A size is well formed where the atom is at least as long as its head.
    pub open spec fn wf(self) -> bool {
        self.len >= spec_head_len(self.ext)
    }

    /// What [`Self::new`] returns, for use in specifications.
    pub open spec fn spec_new(ext: bool, declared: u64) -> Size {
        Size {
            ext,
            len: if declared < spec_head_len(ext) {
                spec_head_len(ext)
            } else {
                declared
            },
        }
    }

    /// The size of an atom that declares a length of `declared` bytes. An atom
    /// cannot be shorter than its head: a smaller length counts as that of
    /// the head alone.
    #[verifier::when_used_as_spec(spec_new)]
    pub fn new(ext: bool, declared: u64) -> (s: Size)
        ensures
            s == Size::spec_new(ext, declared),
            s.wf(),
    {
        let head_len: u64 = if ext {
            16
        } else {
            8
        };
        Size {
            ext,
            len: if declared < head_len {
                head_len
            } else {
                declared
            },
        }
    }

    /// What [`Self::ext`] returns, for use in specifications.
    pub open spec fn spec_ext(&self) -> bool {
        self.ext
    }

    /// Whether the head holds the size in 64 bits.
    #[verifier::when_used_as_spec(spec_ext)]
    pub fn ext(&self) -> (b: bool)
        ensures
            b == self.ext,
    {
        self.ext
    }

    /// What [`Self::len`] returns, for use in specifications.
    pub open spec fn spec_len(&self) -> u64 {
        self.len
    }

    /// The length of the atom, its head included.
    #[verifier::when_used_as_spec(spec_len)]
    pub fn len(&self) -> (n: u64)
        ensures
            n == self.len,
    {
        self.len
    }

    /// What [`Self::head_len`] returns, for use in specifications.
    pub open spec fn spec_head_len(&self) -> u64 {
        spec_head_len(self.ext)
    }

    /// The length of the atom's head.
    #[verifier::when_used_as_spec(spec_head_len)]
    pub fn head_len(&self) -> (n: u64)
        ensures
            n == spec_head_len(self.ext),
    {
        if self.ext {
            16
        } else {
            8
        }
    }

    /// What [`Self::content_len`] returns, for use in specifications.
    pub open spec fn spec_content_len(&self) -> u64 {
        (self.len - spec_head_len(self.ext)) as u64
    }

    /// The length of the atom's content: what the atom declares, less the
    /// head.
    #[verifier::when_used_as_spec(spec_content_len)]
    pub fn content_len(&self) -> (n: u64)
        requires
            self.wf(),
        ensures
            n == self.len - spec_head_len(self.ext),
    {
        self.len - self.head_len()
    }
}

/// Where an atom lies in a stream: the offset of its head, and its size.
#[derive(Clone, Copy, Debug, PartialEq, Eq, Structural)]
pub struct AtomBounds {
    /// The offset of the first byte of the atom's head.
    pub start: u64,
    /// The size of the atom.
    pub size: Size,
}

impl AtomBounds {
    /// Bounds are well formed where the size is, and the offset of the
    /// content fits in 64 bits.
    pub open spec fn wf(self) -> bool {
        &&& self.size.wf()
        &&& self.start + spec_head_len(self.size.ext) <= u64::MAX
    }

    /// What [`Self::start`] returns, for use in specifications.
    pub open spec fn spec_start(&self) -> u64 {
        self.start
    }

    /// The offset of the first byte of the atom's head.
    #[verifier::when_used_as_spec(spec_start)]
    pub fn start(&self) -> (n: u64)
        ensures
            n == self.start,
    {
        self.start
    }

    /// What [`Self::content_start`] returns, for use in specifications.
    pub open spec fn spec_content_start(&self) -> u64 {
        (self.start + spec_head_len(self.size.ext)) as u64
    }

    /// The offset of the first byte of the atom's content.
    #[verifier::when_used_as_spec(spec_content_start)]
    pub fn content_start(&self) -> (n: u64)
        requires
            self.wf(),
        ensures
            n == self.start + spec_head_len(self.size.ext),
    {
        self.start + self.size.head_len()
    }

    /// What [`Self::content_len`] returns, for use in specifications.
    pub open spec fn spec_content_len(&self) -> u64 {
        self.size.spec_content_len()
    }

    /// The length of the atom's content.
    #[verifier::when_used_as_spec(spec_content_len)]
    pub fn content_len(&self) -> (n: u64)
        requires
            self.wf(),
        ensures
            n == self.size.len - spec_head_len(self.size.ext),
    {
        self.size.content_len()
    }

    /// What [`Self::len`] returns, for use in specifications.
    pub open spec fn spec_len(&self) -> u64 {
        self.size.len
    }

    /// The length of the atom, its head included.
    #[verifier::when_used_as_spec(spec_len)]
    pub fn len(&self) -> (n: u64)
        ensures
            n == self.size.len,
    {
        self.size.len
    }

    /// The offset of the first byte behind the atom. It need not fit in 64
    /// bits.
    pub open spec fn spec_end(&self) -> int {
        self.start + self.size.len
    }

    /// The offset of the first byte behind the atom, where it fits in 64
    /// bits.
    pub fn end(&self) -> (r: Option<u64>)
        ensures
            r == if self.spec_end() <= u64::MAX {
                Some(self.spec_end() as u64)
            } else {
                None
            },
    {
        self.start.checked_add(self.size.len)
    }
}

/// The head of an atom: its type code, and where the atom lies.
#[derive(Clone, Copy, Debug, PartialEq, Eq, Structural)]
pub struct Head {
    /// The type code of the atom.
    pub fourcc: Fourcc,
    /// The offset of the atom and its size.
    pub bounds: AtomBounds,
}

impl Head {
    /// A head is well formed where its bounds are.
    pub open spec fn wf(self) -> bool {
        self.bounds.wf()
    }

    /// What [`Self::fourcc`] returns, for use in specifications.
    pub open spec fn spec_fourcc(&self) -> Fourcc {
        self.fourcc
    }

    /// The type code of the atom.
    #[verifier::when_used_as_spec(spec_fourcc)]
    pub fn fourcc(&self) -> (f: Fourcc)
        ensures
            f == self.fourcc,
    {
        self.fourcc
    }

    /// What [`Self::size`] returns, for use in specifications.
    pub open spec fn spec_size(&self) -> Size {
        self.bounds.size
    }

    /// The size that the atom declares.
    #[verifier::when_used_as_spec(spec_size)]
    pub fn size(&self) -> (s: Size)
        ensures
            s == self.bounds.size,
    {
        self.bounds.size
    }

    /// What [`Self::bounds`] returns, for use in specifications.
    pub open spec fn spec_bounds(&self) -> AtomBounds {
        self.bounds
    }

    /// Where the atom lies in the stream.
    #[verifier::when_used_as_spec(spec_bounds)]
    pub fn bounds(&self) -> (b: AtomBounds)
        ensures
            b == self.bounds,
    {
        self.bounds
    }

    /// What [`Self::len`] returns, for use in specifications.
    pub open spec fn spec_len(&self) -> u64 {
        self.bounds.size.len
    }

    /// The length of the atom, its head included.
    #[verifier::when_used_as_spec(spec_len)]
    pub fn len(&self) -> (n: u64)
        ensures
            n == self.bounds.size.len,
    {
        self.bounds.size.len
    }

    /// What [`Self::content_len`] returns, for use in specifications.
    pub open spec fn spec_content_len(&self) -> u64 {
        self.bounds.size.spec_content_len()
    }

    /// The length of the atom's content.
    #[verifier::when_used_as_spec(spec_content_len)]
    pub fn content_len(&self) -> (n: u64)
        requires
            self.wf(),
        ensures
            n == self.bounds.size.len - spec_head_len(self.bounds.size.ext),
    {
        self.bounds.size.content_len()
    }
}

/// The head that stands at offset `pos` of `data`, or `None` where `data` ends
/// before the head does.
///
/// The head starts with the size as a 32-bit big-endian integer and the type
/// code. A size of 1 says that the size follows the type code as a 64-bit
/// integer. A size of 0 says that the atom runs to the end of `data`.
pub open spec fn spec_parse_head(data: Seq<u8>, pos: int) -> Option<Head> {
    if pos < 0 || pos + 8 > data.len() {
        None
    } else {
        let declared = spec_be_u32(data.subrange(pos, pos + 4));
        let fourcc = Fourcc(spec_be_u32(data.subrange(pos + 4, pos + 8)));
        if declared == 1 {
            if pos + 16 > data.len() {
                None
            } else {
                let ext_declared = spec_be_u64(data.subrange(pos + 8, pos + 16));
                Some(
                    Head {
                        fourcc,
                        bounds: AtomBounds { start: pos as u64, size: Size::spec_new(true, ext_declared) },
                    },
                )
            }
        } else if declared == 0 {
            Some(
                Head {
                    fourcc,
                    bounds: AtomBounds {
                        start: pos as u64,
                        size: Size { ext: false, len: (data.len() - pos) as u64 },
                    },
                },
            )
        } else {
            Some(
                Head {
                    fourcc,
                    bounds: AtomBounds {
                        start: pos as u64,
                        size: Size::spec_new(false, declared as u64),
                    },
                },
            )
        }
    }
}

/// A head that was read from data whose length fits in 64 bits is well
/// formed, starts where it was read, and its content starts behind its last
/// byte.
pub proof fn lemma_parse_head_wf(data: Seq<u8>, pos: int)
    requires
        data.len() <= u64::MAX,
    ensures
        spec_parse_head(data, pos) matches Some(head) ==> {
            &&& head.wf()
            &&& head.bounds.start == pos
            &&& head.bounds.spec_content_start() <= data.len()
            &&& head.spec_len() >= 8
        },
{
}

/// The content length that a head declares: with a size field `s` other than
/// 0 and 1, `s - 8`; with a size field of 1 and an extended size `n`,
/// `n - 16`; with a size field of 0, all that follows the head. A size that is
/// smaller than the head leaves no content.
pub proof fn lemma_parse_head_content_len(data: Seq<u8>, pos: int)
    requires
        data.len() <= u64::MAX,
        0 <= pos,
        pos + 8 <= data.len(),
    ensures
        ({
            let s = spec_be_u32(data.subrange(pos, pos + 4));
            &&& s >= 8 ==> {
                &&& spec_parse_head(data, pos) matches Some(head)
                &&& head.spec_content_len() == s - 8
                &&& !head.bounds.size.ext
            }
            &&& 1 < s < 8 ==> {
                &&& spec_parse_head(data, pos) matches Some(head)
                &&& head.spec_content_len() == 0
            }
            &&& s == 0 ==> {
                &&& spec_parse_head(data, pos) matches Some(head)
                &&& head.spec_content_len() == data.len() - pos - 8
            }
            &&& s == 1 && pos + 16 <= data.len() ==> {
                let n = spec_be_u64(data.subrange(pos + 8, pos + 16));
                &&& spec_parse_head(data, pos) matches Some(head)
                &&& head.bounds.size.ext
                &&& n >= 16 ==> head.spec_content_len() == n - 16
                &&& n < 16 ==> head.spec_content_len() == 0
            }
            &&& s == 1 && pos + 16 > data.len() ==> spec_parse_head(data, pos) is None
        }),
{
}

/// Reads the head of the atom that starts at the position of `stream`, and
/// leaves the stream at the first byte of the atom's content.
///
/// Fails with `ErrorKind::Io`, the stream left where it was, where the stream
/// ends before the head does.
pub fn parse_head(stream: &mut Stream) -> (r: Result<Head, Error>)
    ensures
        final(stream).data == old(stream).data,
        match spec_parse_head(old(stream).data@, old(stream).pos as int) {
            Some(head) => {
                &&& r == Ok::<Head, Error>(head)
                &&& head.wf()
                &&& final(stream).pos == head.bounds.spec_content_start()
            },
            None => {
                &&& r matches Err(e)
                &&& e.kind == ErrorKind::Io
                &&& final(stream).pos == old(stream).pos
            },
        },
{
    let start: u64 = stream.position();
    if remaining_stream_len(stream) < 8 {
        return Err(Error::io("unexpected end of stream in an atom head"));
    }
    proof {
        stream.lemma_len_fits();
        lemma_parse_head_wf(stream.data@, start as int);
        assert(stream.unread().take(4) =~= stream.data@.subrange(start as int, start + 4));
        assert(stream.unread().skip(4).take(4) =~= stream.data@.subrange(start + 4, start + 8));
    }
    let declared: u32 = stream.read_u32()?;
    let fourcc = Fourcc(stream.read_u32()?);
    if declared == 1 {
        if remaining_stream_len(stream) < 8 {
            stream.seek_to(start);
            return Err(Error::io("unexpected end of stream in an extended atom size"));
        }
        assert(stream.unread().take(8) =~= stream.data@.subrange(start + 8, start + 16));
        let ext_declared: u64 = stream.read_u64()?;
        Ok(Head { fourcc, bounds: AtomBounds { start, size: Size::new(true, ext_declared) } })
    } else if declared == 0 {
        let rest: u64 = remaining_stream_len(stream);
        Ok(Head { fourcc, bounds: AtomBounds { start, size: Size { ext: false, len: 8 + rest } } })
    } else {
        Ok(Head { fourcc, bounds: AtomBounds { start, size: Size::new(false, declared as u64) } })
    }
}

/// The bytes of the head of an atom of the given type code and size: the
/// size in 32 bits and the type code, or, for a size that is held in 64 bits,
/// a 1 in 32 bits, the type code, and the size in 64 bits.
pub open spec fn spec_head_bytes(fourcc: Fourcc, size: Size) -> Seq<u8> {
    if size.ext {
        spec_u32_be_bytes(1) + spec_u32_be_bytes(fourcc.0) + spec_u64_be_bytes(size.len)
    } else {
        spec_u32_be_bytes(size.len as u32) + spec_u32_be_bytes(fourcc.0)
    }
}

/// The head that is read where the bytes of a head stand is the head that
/// they were written for, whatever stands before and behind them.
pub proof fn lemma_head_round_trip(fourcc: Fourcc, size: Size, before: Seq<u8>, behind: Seq<u8>)
    requires
        size.wf(),
        size.ext || size.len <= u32::MAX,
        before.len() + 16 + behind.len() <= u64::MAX,
    ensures
        spec_head_bytes(fourcc, size).len() == spec_head_len(size.ext),
        spec_parse_head(before + spec_head_bytes(fourcc, size) + behind, before.len() as int)
            == Some(Head { fourcc, bounds: AtomBounds { start: before.len() as u64, size } }),
{
    let data = before + spec_head_bytes(fourcc, size) + behind;
    let pos = before.len() as int;
    lemma_u32_be_round_trip(fourcc.0);
    assert(data.subrange(pos + 4, pos + 8) =~= spec_u32_be_bytes(fourcc.0));
    if size.ext {
        lemma_u32_be_round_trip(1);
        lemma_u64_be_round_trip(size.len);
        assert(data.subrange(pos, pos + 4) =~= spec_u32_be_bytes(1));
        assert(data.subrange(pos + 8, pos + 16) =~= spec_u64_be_bytes(size.len));
    } else {
        lemma_u32_be_round_trip(size.len as u32);
        assert(data.subrange(pos, pos + 4) =~= spec_u32_be_bytes(size.len as u32));
    }
}

/// Appends to `writer` the head of an atom of the given type code and size.
pub fn write_head(writer: &mut Vec<u8>, fourcc: Fourcc, size: Size)
    requires
        size.ext || size.len <= u32::MAX,
    ensures
        final(writer)@ == old(writer)@ + spec_head_bytes(fourcc, size),
{
    if size.ext() {
        push_be_u32(writer, 1);
        push_be_u32(writer, fourcc.0);
        push_be_u64(writer, size.len());
    } else {
        push_be_u32(writer, size.len() as u32);
        push_be_u32(writer, fourcc.0);
    }
    assert(writer@ =~= old(writer)@ + spec_head_bytes(fourcc, size));
}

/// Reads the version and the flags that a versioned atom starts with: one
/// byte, then three.
///
/// Fails with `ErrorKind::Io`, the stream left where it was, where fewer than
/// four bytes are left.
pub fn parse_full_head(stream: &mut Stream) -> (r: Result<(u8, [u8; 3]), Error>)
    ensures
        final(stream).data == old(stream).data,
        match r {
            Ok((version, flags)) => {
                &&& old(stream).unread().len() >= 4
                &&& version == old(stream).unread()[0]
                &&& flags@ == old(stream).unread().subrange(1, 4)
                &&& final(stream).pos == old(stream).pos + 4
            },
            Err(e) => {
                &&& old(stream).unread().len() < 4
                &&& e.kind == ErrorKind::Io
                &&& final(stream).pos == old(stream).pos
            },
        },
{
    if remaining_stream_len(stream) < 4 {
        return Err(Error::io("unexpected end of stream in version and flags"));
    }
    let version: u8 = stream.read_u8()?;
    let f0: u8 = stream.read_u8()?;
    let f1: u8 = stream.read_u8()?;
    let f2: u8 = stream.read_u8()?;
    let flags: [u8; 3] = [f0, f1, f2];
    assert(flags@ =~= old(stream).unread().subrange(1, 4));
    Ok((version, flags))
}

/// The bounds of the atom of the given size whose content starts at the
/// position of `stream`.
pub fn find_bounds(stream: &Stream, size: Size) -> (b: AtomBounds)
    requires
        size.wf(),
        stream.pos >= spec_head_len(size.ext),
    ensures
        b.wf(),
        b.size == size,
        b.start == stream.pos - spec_head_len(size.ext),
        b.spec_content_start() == stream.pos,
{
    AtomBounds { start: stream.position() - size.head_len(), size }
}

/// Moves `stream` to the end of the content that starts at offset `start` and
/// is `content_len` bytes long, wherever the stream stands.
///
/// Fails with `ErrorKind::Io`, the stream left where it was, where that
/// offset does not fit in 64 bits.
pub fn seek_to_end(stream: &mut Stream, start: u64, content_len: u64) -> (r: Result<(), Error>)
    ensures
        final(stream).data == old(stream).data,
        match r {
            Ok(_) => start + content_len <= u64::MAX && final(stream).pos == start + content_len,
            Err(e) => {
                &&& start + content_len > u64::MAX
                &&& e.kind == ErrorKind::Io
                &&& final(stream).pos == old(stream).pos
            },
        },
{
    match start.checked_add(content_len) {
        Some(end) => {
            stream.seek_to(end);
            Ok(())
        },
        None => Err(Error::io("the end of an atom lies at an offset that does not fit in 64 bits")),
    }
}

} // verus!
