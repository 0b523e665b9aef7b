use vstd::prelude::*;

use crate::atom::head::{find_bounds, spec_head_len, AtomBounds, Size};
use crate::atom::walk::{skip_children, spec_children};
use crate::error::{Error, ErrorKind};
use crate::stream::Stream;

verus! {

/// The media atom. None of the atoms inside it is kept.
#[derive(Clone, Copy, Debug, PartialEq, Eq, Structural)]
pub struct Mdia {}

impl Default for Mdia {
    /// A media atom.
    fn default() -> (m: Mdia)
        ensures
            m == (Mdia {  }),
    {
        Mdia {  }
    }
}

/// Where a media atom lies in a stream.
#[derive(Clone, Copy, Debug, PartialEq, Eq, Structural)]
pub struct MdiaBounds {
    /// The bounds of the media atom itself.
    pub bounds: AtomBounds,
}

/// The media atom whose content of `content_len` bytes starts at offset `pos`
/// of `data`, or `None` where the atoms inside it cannot be walked through.
pub open spec fn spec_parse_mdia(data: Seq<u8>, pos: int, content_len: nat) -> Option<Mdia> {
    match spec_children(data, pos, content_len) {
        Some(_) => Some(Mdia {  }),
        None => None,
    }
}

/// The bounds of the media atom of the given size whose content starts at
/// offset `pos` of `data`, or `None` where the atoms inside it cannot be
/// walked through.
pub open spec fn spec_find_mdia(data: Seq<u8>, pos: int, size: Size) -> Option<MdiaBounds> {
    match spec_children(data, pos, size.spec_content_len() as nat) {
        Some(_) => Some(
            MdiaBounds {
                bounds: AtomBounds { start: (pos - spec_head_len(size.ext)) as u64, size },
            },
        ),
        None => None,
    }
}

impl Mdia {
    /// Reads a media atom whose content starts at the position of `stream`
    /// and is `size.content_len()` bytes long: walks through the atoms inside
    /// it, and leaves the stream at the end of the content.
    ///
    /// Fails with `ErrorKind::Io`, the stream left where it was, where the
    /// atoms inside cannot be walked through.
    pub fn parse_atom(stream: &mut Stream, size: Size) -> (r: Result<Mdia, Error>)
        requires
            size.wf(),
        ensures
            final(stream).data == old(stream).data,
            match spec_parse_mdia(
                old(stream).data@,
                old(stream).pos as int,
                size.content_len() as nat,
            ) {
                Some(mdia) => {
                    &&& r == Ok::<Mdia, Error>(mdia)
                    &&& final(stream).pos == old(stream).pos + size.content_len()
                },
                None => {
                    &&& r matches Err(e)
                    &&& e.kind == ErrorKind::Io
                    &&& final(stream).pos == old(stream).pos
                },
            },
    {
        skip_children(stream, size.content_len())?;
        Ok(Mdia {  })
    }

    /// Finds the bounds of a media atom whose content starts at the position
    /// of `stream` and is `size.content_len()` bytes long: walks through the
    /// atoms inside it, and leaves the stream at the end of the content.
    ///
    /// Fails with `ErrorKind::Io`, the stream left where it was, where the
    /// atoms inside cannot be walked through.
    pub fn find_atom(stream: &mut Stream, size: Size) -> (r: Result<MdiaBounds, Error>)
        requires
            size.wf(),
            old(stream).pos >= size.head_len(),
        ensures
            final(stream).data == old(stream).data,
            match spec_find_mdia(old(stream).data@, old(stream).pos as int, size) {
                Some(found) => {
                    &&& r == Ok::<MdiaBounds, Error>(found)
                    &&& found.bounds.wf()
                    &&& final(stream).pos == old(stream).pos + size.content_len()
                },
                None => {
                    &&& r matches Err(e)
                    &&& e.kind == ErrorKind::Io
                    &&& final(stream).pos == old(stream).pos
                },
            },
    {
        let bounds = find_bounds(stream, size);
        skip_children(stream, size.content_len())?;
        Ok(MdiaBounds { bounds })
    }
}

} // verus!
