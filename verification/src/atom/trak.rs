use vstd::prelude::*;

use crate::atom::head::{
    find_bounds, lemma_parse_head_wf, parse_head, seek_to_end, spec_head_len, spec_parse_head,
    AtomBounds, Fourcc, Head, Size, MEDIA,
};
use crate::atom::mdia::{spec_find_mdia, spec_parse_mdia, Mdia, MdiaBounds};
use crate::atom::walk::{
    lemma_after_nothing, lemma_children_none, lemma_children_single, lemma_children_step,
    lemma_children_tile, lemma_last_of, spec_after, spec_children, spec_last_of,
};
use crate::error::{Error, ErrorKind};
use crate::stream::Stream;

verus! {

/// The track atom, of which the media atom is kept.
#[derive(Clone, Copy, Debug, PartialEq, Eq, Structural)]
pub struct Trak {
    /// The media atom of the track: the last one, where there are several.
    pub mdia: Option<Mdia>,
}

impl Default for Trak {
    /// A track without a media atom.
    fn default() -> (t: Trak)
        ensures
            t == (Trak { mdia: None }),
    {
        Trak { mdia: None }
    }
}

/// Where a track atom and the media atom inside it lie in a stream.
#[derive(Clone, Copy, Debug, PartialEq, Eq, Structural)]
pub struct TrakBounds {
    /// The bounds of the track atom itself.
    pub bounds: AtomBounds,
    /// The bounds of the media atom of the track: of the last one, where
    /// there are several.
    pub mdia: Option<MdiaBounds>,
}

/// True where each media atom among `heads` can be read from `data`.
pub open spec fn spec_media_readable(data: Seq<u8>, heads: Seq<Head>) -> bool {
    forall|i: int|
        0 <= i < heads.len() && (#[trigger] heads[i]).fourcc == Fourcc(MEDIA) ==> spec_parse_mdia(
            data,
            heads[i].bounds.spec_content_start() as int,
            heads[i].spec_content_len() as nat,
        ) is Some
}

/// The track atom whose content of `content_len` bytes starts at offset `pos`
/// of `data`, or `None` where the atoms inside it cannot be walked through or
/// a media atom among them cannot be read.
pub open spec fn spec_parse_trak(data: Seq<u8>, pos: int, content_len: nat) -> Option<Trak> {
    match spec_children(data, pos, content_len) {
        Some(heads) => if spec_media_readable(data, heads) {
            Some(
                Trak {
                    mdia: match spec_last_of(heads, Fourcc(MEDIA)) {
                        Some(head) => spec_parse_mdia(
                            data,
                            head.bounds.spec_content_start() as int,
                            head.spec_content_len() as nat,
                        ),
                        None => None,
                    },
                },
            )
        } else {
            None
        },
        None => None,
    }
}

/// The bounds of the track atom of the given size whose content starts at
/// offset `pos` of `data`, with those of its media atom, or `None` where the
/// atoms inside it cannot be walked through or a media atom among them cannot
/// be read.
pub open spec fn spec_find_trak(data: Seq<u8>, pos: int, size: Size) -> Option<TrakBounds> {
    match spec_children(data, pos, size.spec_content_len() as nat) {
        Some(heads) => if spec_media_readable(data, heads) {
            Some(
                TrakBounds {
                    bounds: AtomBounds { start: (pos - spec_head_len(size.ext)) as u64, size },
                    mdia: match spec_last_of(heads, Fourcc(MEDIA)) {
                        Some(head) => spec_find_mdia(
                            data,
                            head.bounds.spec_content_start() as int,
                            head.bounds.size,
                        ),
                        None => None,
                    },
                },
            )
        } else {
            None
        },
        None => None,
    }
}

/// A way on which every media atom so far can be read stays so with one more
/// atom that is no media atom, or is one that can be read.
proof fn lemma_readable_push(data: Seq<u8>, seen: Seq<Head>, head: Head)
    requires
        spec_media_readable(data, seen),
        head.fourcc == Fourcc(MEDIA) ==> spec_parse_mdia(
            data,
            head.bounds.spec_content_start() as int,
            head.spec_content_len() as nat,
        ) is Some,
    ensures
        spec_media_readable(data, seen.push(head)),
{
    let all = seen.push(head);
    assert forall|i: int| 0 <= i < all.len() && (#[trigger] all[i]).fourcc == Fourcc(
        MEDIA,
    ) implies spec_parse_mdia(
        data,
        all[i].bounds.spec_content_start() as int,
        all[i].spec_content_len() as nat,
    ) is Some by {
        if i < seen.len() {
            assert(all[i] == seen[i]);
        }
    }
}

/// A way with a media atom on it that cannot be read gives no track.
proof fn lemma_unreadable(data: Seq<u8>, heads: Seq<Head>, i: int)
    requires
        0 <= i < heads.len(),
        heads[i].fourcc == Fourcc(MEDIA),
        spec_parse_mdia(
            data,
            heads[i].bounds.spec_content_start() as int,
            heads[i].spec_content_len() as nat,
        ) is None,
    ensures
        !spec_media_readable(data, heads),
{
}

/// A track whose content is a media atom that can be read and, behind it, an
/// atom of another type, the two together as long as the content, is read
/// with that media atom kept.
pub proof fn lemma_trak_of_media_and_other(data: Seq<u8>, pos: int, media: Head, other: Head)
    requires
        data.len() <= u64::MAX,
        spec_parse_head(data, pos) == Some(media),
        spec_parse_head(data, media.bounds.spec_end()) == Some(other),
        media.fourcc == Fourcc(MEDIA),
        other.fourcc != Fourcc(MEDIA),
        spec_parse_mdia(
            data,
            media.bounds.spec_content_start() as int,
            media.spec_content_len() as nat,
        ) is Some,
        other.bounds.spec_end() <= u64::MAX,
    ensures
        spec_children(data, pos, (media.spec_len() + other.spec_len()) as nat) == Some(
            seq![media, other],
        ),
        spec_parse_trak(data, pos, (media.spec_len() + other.spec_len()) as nat) == Some(
            Trak { mdia: Some(Mdia {  }) },
        ),
{
    let heads = seq![media, other];
    lemma_parse_head_wf(data, pos);
    lemma_parse_head_wf(data, media.bounds.spec_end());
    lemma_children_single(data, media.bounds.spec_end(), other.spec_len() as nat, other);
    lemma_children_step(
        data,
        Seq::empty(),
        pos,
        (media.spec_len() + other.spec_len()) as nat,
    );
    lemma_after_nothing(
        spec_children(data, pos, (media.spec_len() + other.spec_len()) as nat),
    );
    assert(Seq::<Head>::empty().push(media) + seq![other] =~= heads);
    assert(heads.drop_last() =~= seq![media]);
    assert(seq![media].drop_last() =~= Seq::<Head>::empty());
    assert(spec_last_of(seq![media], Fourcc(MEDIA)) == Some(media));
    assert(spec_last_of(heads, Fourcc(MEDIA)) == Some(media));
}

/// The bounds that a track atom is found with are those of the atom whose
/// content was walked through. The bounds of its media atom, where it has
/// one, are those of an atom that was met on that way: a head with the type
/// code of a media atom stands at their start, they start inside the content
/// of the track, and no media atom is met behind them.
pub proof fn lemma_find_trak_bounds(data: Seq<u8>, pos: int, size: Size)
    requires
        data.len() <= u64::MAX,
        size.wf(),
        spec_head_len(size.ext) <= pos <= u64::MAX,
    ensures
        spec_find_trak(data, pos, size) matches Some(found) ==> {
            &&& found.bounds.wf()
            &&& found.bounds.size == size
            &&& found.bounds.spec_content_start() == pos
            &&& found.bounds.spec_end() <= u64::MAX
            &&& spec_children(data, pos, size.spec_content_len() as nat) matches Some(heads)
            &&& match found.mdia {
                Some(mdia) => exists|i: int|
                    {
                        &&& 0 <= i < heads.len()
                        &&& (#[trigger] heads[i]).bounds == mdia.bounds
                        &&& heads[i].fourcc == Fourcc(MEDIA)
                        &&& spec_parse_head(data, mdia.bounds.start as int) == Some(heads[i])
                        &&& pos <= mdia.bounds.start < pos + size.spec_content_len()
                        &&& forall|j: int|
                            i < j < heads.len() ==> (#[trigger] heads[j]).fourcc != Fourcc(MEDIA)
                    },
                None => forall|i: int|
                    0 <= i < heads.len() ==> (#[trigger] heads[i]).fourcc != Fourcc(MEDIA),
            }
        },
{
    let content_len = size.spec_content_len() as nat;
    lemma_children_tile(data, pos, content_len);
    match spec_children(data, pos, content_len) {
        Some(heads) => {
            lemma_last_of(heads, Fourcc(MEDIA));
            if spec_media_readable(data, heads) {
                match spec_last_of(heads, Fourcc(MEDIA)) {
                    Some(head) => {
                        let i = choose|i: int|
                            {
                                &&& 0 <= i < heads.len()
                                &&& #[trigger] heads[i] == head
                                &&& head.fourcc == Fourcc(MEDIA)
                                &&& forall|j: int|
                                    i < j < heads.len() ==> (#[trigger] heads[j]).fourcc != Fourcc(
                                        MEDIA,
                                    )
                            };
                        assert(spec_parse_mdia(
                            data,
                            heads[i].bounds.spec_content_start() as int,
                            heads[i].spec_content_len() as nat,
                        ) is Some);
                    },
                    None => {},
                }
            }
        },
        None => {},
    }
}

impl Trak {
    /// Reads a track atom whose content starts at the position of `stream` and
    /// is `size.content_len()` bytes long, and leaves the stream at the end of
    /// that content, also where the last atom inside claims to end behind it.
    ///
    /// Atom by atom the content is walked through. A media atom is read and
    /// kept, in place of one kept before; an atom of any other type is passed
    /// over.
    ///
    /// Fails with `ErrorKind::Io`, the stream left where it was, where the
    /// stream ends inside the head of an atom, an atom ends at an offset that
    /// does not fit in 64 bits, or a media atom cannot be read.
    pub fn parse_atom(stream: &mut Stream, size: Size) -> (r: Result<Trak, Error>)
        requires
            size.wf(),
        ensures
            final(stream).data == old(stream).data,
            match spec_parse_trak(
                old(stream).data@,
                old(stream).pos as int,
                size.content_len() as nat,
            ) {
                Some(trak) => {
                    &&& r == Ok::<Trak, Error>(trak)
                    &&& final(stream).pos == old(stream).pos + size.content_len()
                },
                None => {
                    &&& r matches Err(e)
                    &&& e.kind == ErrorKind::Io
                    &&& final(stream).pos == old(stream).pos
                },
            },
    {
        let start: u64 = stream.position();
        let content_len: u64 = size.content_len();
        let ghost data = stream.data@;
        let ghost mut seen: Seq<Head> = Seq::empty();
        let mut trak = Trak { mdia: None };
        let mut remaining: u64 = content_len;
        proof {
            stream.lemma_len_fits();
            lemma_after_nothing(spec_children(data, start as int, content_len as nat));
        }
        while remaining > 0
            invariant
                stream.data == old(stream).data,
                data == old(stream).data@,
                data.len() <= u64::MAX,
                start == old(stream).pos,
                size.wf(),
                content_len == size.spec_content_len(),
                spec_children(data, start as int, content_len as nat) == spec_after(
                    seen,
                    spec_children(data, stream.pos as int, remaining as nat),
                ),
                spec_media_readable(data, seen),
                trak.mdia == match spec_last_of(seen, Fourcc(MEDIA)) {
                    Some(head) => spec_parse_mdia(
                        data,
                        head.bounds.spec_content_start() as int,
                        head.spec_content_len() as nat,
                    ),
                    None => None,
                },
            decreases remaining,
        {
            proof {
                lemma_parse_head_wf(data, stream.pos as int);
                lemma_children_step(data, seen, stream.pos as int, remaining as nat);
            }
            let head = match parse_head(stream) {
                Ok(head) => head,
                Err(e) => {
                    stream.seek_to(start);
                    return Err(e);
                },
            };
            if head.fourcc() == Fourcc(MEDIA) {
                match Mdia::parse_atom(stream, head.size()) {
                    Ok(mdia) => {
                        trak.mdia = Some(mdia);
                    },
                    Err(e) => {
                        proof {
                            let whole = spec_children(data, start as int, content_len as nat);
                            if whole is Some {
                                lemma_unreadable(data, whole->0, seen.len() as int);
                            }
                        }
                        stream.seek_to(start);
                        return Err(e);
                    },
                }
            } else {
                match stream.skip(head.content_len()) {
                    Ok(_) => {},
                    Err(e) => {
                        stream.seek_to(start);
                        return Err(e);
                    },
                }
            }
            remaining = remaining.saturating_sub(head.len());
            proof {
                lemma_readable_push(data, seen, head);
                assert(seen.push(head).drop_last() =~= seen);
                seen = seen.push(head);
            }
        }
        proof {
            lemma_children_none(data, stream.pos as int, seen);
            lemma_children_tile(data, start as int, content_len as nat);
        }
        match seek_to_end(stream, start, content_len) {
            Ok(_) => Ok(trak),
            Err(e) => {
                stream.seek_to(start);
                Err(e)
            },
        }
    }

    /// Finds the bounds of a track atom whose content starts at the position
    /// of `stream` and is `size.content_len()` bytes long, with those of the
    /// media atom inside it, and leaves the stream at the end of that content,
    /// also where the last atom inside claims to end behind it.
    ///
    /// Atom by atom the content is walked through. Of a media atom the bounds
    /// are found and kept, in place of those kept before; an atom of any
    /// other type is passed over.
    ///
    /// Fails with `ErrorKind::Io`, the stream left where it was, where the
    /// stream ends inside the head of an atom, an atom ends at an offset that
    /// does not fit in 64 bits, or a media atom cannot be read.
    pub fn find_atom(stream: &mut Stream, size: Size) -> (r: Result<TrakBounds, Error>)
        requires
            size.wf(),
            old(stream).pos >= size.head_len(),
        ensures
            final(stream).data == old(stream).data,
            match spec_find_trak(old(stream).data@, old(stream).pos as int, size) {
                Some(found) => {
                    &&& r == Ok::<TrakBounds, Error>(found)
                    &&& found.bounds.wf()
                    &&& final(stream).pos == old(stream).pos + size.content_len()
                },
                None => {
                    &&& r matches Err(e)
                    &&& e.kind == ErrorKind::Io
                    &&& final(stream).pos == old(stream).pos
                },
            },
    {
        let bounds = find_bounds(stream, size);
        let start: u64 = stream.position();
        let content_len: u64 = size.content_len();
        let ghost data = stream.data@;
        let ghost mut seen: Seq<Head> = Seq::empty();
        let mut mdia: Option<MdiaBounds> = None;
        let mut remaining: u64 = content_len;
        proof {
            stream.lemma_len_fits();
            lemma_after_nothing(spec_children(data, start as int, content_len as nat));
        }
        while remaining > 0
            invariant
                stream.data == old(stream).data,
                data == old(stream).data@,
                data.len() <= u64::MAX,
                start == old(stream).pos,
                size.wf(),
                content_len == size.spec_content_len(),
                spec_children(data, start as int, content_len as nat) == spec_after(
                    seen,
                    spec_children(data, stream.pos as int, remaining as nat),
                ),
                spec_media_readable(data, seen),
                mdia == match spec_last_of(seen, Fourcc(MEDIA)) {
                    Some(head) => spec_find_mdia(
                        data,
                        head.bounds.spec_content_start() as int,
                        head.bounds.size,
                    ),
                    None => None,
                },
            decreases remaining,
        {
            proof {
                lemma_parse_head_wf(data, stream.pos as int);
                lemma_children_step(data, seen, stream.pos as int, remaining as nat);
            }
            let head = match parse_head(stream) {
                Ok(head) => head,
                Err(e) => {
                    stream.seek_to(start);
                    return Err(e);
                },
            };
            if head.fourcc() == Fourcc(MEDIA) {
                match Mdia::find_atom(stream, head.size()) {
                    Ok(found) => {
                        mdia = Some(found);
                    },
                    Err(e) => {
                        proof {
                            let whole = spec_children(data, start as int, content_len as nat);
                            if whole is Some {
                                lemma_unreadable(data, whole->0, seen.len() as int);
                            }
                        }
                        stream.seek_to(start);
                        return Err(e);
                    },
                }
            } else {
                match stream.skip(head.content_len()) {
                    Ok(_) => {},
                    Err(e) => {
                        stream.seek_to(start);
                        return Err(e);
                    },
                }
            }
            remaining = remaining.saturating_sub(head.len());
            proof {
                lemma_readable_push(data, seen, head);
                assert(seen.push(head).drop_last() =~= seen);
                seen = seen.push(head);
            }
        }
        proof {
            lemma_children_none(data, stream.pos as int, seen);
            lemma_children_tile(data, start as int, content_len as nat);
        }
        match seek_to_end(stream, start, content_len) {
            Ok(_) => Ok(TrakBounds { bounds, mdia }),
            Err(e) => {
                stream.seek_to(start);
                Err(e)
            },
        }
    }
}

} // verus!
