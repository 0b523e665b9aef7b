use mp4meta::atom::head::{parse_head, AtomBounds, Fourcc, Size, MEDIA, TRACK};
use mp4meta::atom::mdia::{Mdia, MdiaBounds};
use mp4meta::atom::trak::{Trak, TrakBounds};
use mp4meta::atom::walk::skip_children;
use mp4meta::stream::Stream;
use mp4meta::ErrorKind;

/// An atom with a 32-bit size that holds `content`.
fn atom(fourcc: &[u8; 4], content: &[u8]) -> Vec<u8> {
    let mut bytes = ((content.len() + 8) as u32).to_be_bytes().to_vec();
    bytes.extend_from_slice(fourcc);
    bytes.extend_from_slice(content);
    bytes
}

/// An atom that declares `declared` bytes, whatever it holds.
fn atom_declaring(fourcc: &[u8; 4], declared: u32, content: &[u8]) -> Vec<u8> {
    let mut bytes = declared.to_be_bytes().to_vec();
    bytes.extend_from_slice(fourcc);
    bytes.extend_from_slice(content);
    bytes
}

/// An atom with a 64-bit size that holds `content`.
fn ext_atom(fourcc: &[u8; 4], content: &[u8]) -> Vec<u8> {
    let mut bytes = vec![0, 0, 0, 1];
    bytes.extend_from_slice(fourcc);
    bytes.extend_from_slice(&((content.len() + 16) as u64).to_be_bytes());
    bytes.extend_from_slice(content);
    bytes
}

fn concat(parts: &[Vec<u8>]) -> Vec<u8> {
    parts.iter().flat_map(|p| p.iter().copied()).collect()
}

#[test]
fn skip_invariant() {
    // a track that holds a media atom with 12 bytes of content and an atom
    // of another type with 5 bytes: L = 12 + 5 + 2 * 8
    let mdia = atom(b"mdia", &atom(b"mdhd", &[1, 2, 3, 4]));
    let other = atom(b"tkhd", &[9; 5]);
    let trak = atom(b"trak", &concat(&[mdia, other]));
    let next = atom(b"udta", &[]);
    let mut stream = Stream::new(concat(&[trak, next]));

    let head = parse_head(&mut stream).unwrap();
    assert_eq!(head.fourcc(), Fourcc(TRACK));
    assert_eq!(head.content_len(), 12 + 5 + 16);
    let parsed = Trak::parse_atom(&mut stream, head.size()).unwrap();
    assert_eq!(parsed, Trak { mdia: Some(Mdia {}) });
    assert_eq!(stream.position(), head.bounds().end().unwrap());
    assert_eq!(stream.position(), 41);
    let sibling = parse_head(&mut stream).unwrap();
    assert_eq!(sibling.fourcc(), Fourcc::from_bytes(*b"udta"));
}

#[test]
fn track_without_media() {
    let trak = atom(b"trak", &concat(&[atom(b"tkhd", &[1; 3]), atom(b"edts", &[])]));
    let mut stream = Stream::new(trak);
    let head = parse_head(&mut stream).unwrap();
    assert_eq!(Trak::parse_atom(&mut stream, head.size()).unwrap(), Trak { mdia: None });
    assert_eq!(Trak { mdia: None }, Trak::default());
    assert_eq!(stream.position(), 27);
}

#[test]
fn empty_track() {
    let mut stream = Stream::new(atom(b"trak", &[]));
    let head = parse_head(&mut stream).unwrap();
    assert_eq!(Trak::parse_atom(&mut stream, head.size()).unwrap(), Trak { mdia: None });
    assert_eq!(stream.position(), 8);
    stream.seek_to(8);
    let found = Trak::find_atom(&mut stream, head.size()).unwrap();
    assert_eq!(found, TrakBounds { bounds: head.bounds(), mdia: None });
    assert_eq!(stream.position(), 8);
}

#[test]
fn malformed_child_size() {
    // the last atom inside the track claims 100 bytes of content, of which
    // the track has 4 left
    let liar = atom_declaring(b"free", 108, &[0xEE; 4]);
    let trak = atom(b"trak", &concat(&[atom(b"tkhd", &[1; 2]), liar]));
    let trak_len = trak.len() as u64;
    let next = atom(b"mdia", &[]);
    let mut stream = Stream::new(concat(&[trak, next, vec![0x33; 200]]));

    let head = parse_head(&mut stream).unwrap();
    assert_eq!(head.len(), trak_len);
    let parsed = Trak::parse_atom(&mut stream, head.size()).unwrap();
    assert_eq!(parsed, Trak { mdia: None });
    assert_eq!(stream.position(), trak_len);
    let sibling = parse_head(&mut stream).unwrap();
    assert_eq!(sibling.fourcc(), Fourcc(MEDIA));
    assert_eq!(sibling.bounds().start(), trak_len);

    stream.seek_to(8);
    let found = Trak::find_atom(&mut stream, head.size()).unwrap();
    assert_eq!(found.mdia, None);
    assert_eq!(stream.position(), trak_len);
}

#[test]
fn child_that_claims_more_than_the_stream_holds() {
    let liar = atom_declaring(b"free", 0xFFFF_FFFF, &[0xEE; 4]);
    let trak = atom(b"trak", &liar);
    let mut stream = Stream::new(trak);
    let head = parse_head(&mut stream).unwrap();
    assert_eq!(Trak::parse_atom(&mut stream, head.size()).unwrap(), Trak { mdia: None });
    assert_eq!(stream.position(), 20);
}

#[test]
fn child_that_under_reports_its_size() {
    // a size field of 4 is smaller than the head: the atom counts as a bare
    // head, and the way goes on behind it
    let small = atom_declaring(b"free", 4, &[]);
    let trak = atom(b"trak", &concat(&[small, atom(b"mdia", &[])]));
    let mut stream = Stream::new(trak);
    let head = parse_head(&mut stream).unwrap();
    let parsed = Trak::parse_atom(&mut stream, head.size()).unwrap();
    assert_eq!(parsed.mdia, Some(Mdia {}));
    assert_eq!(stream.position(), 24);
}

#[test]
fn child_that_runs_to_the_end_of_the_stream() {
    // a size field of 0: the atom takes all that is left
    let open = atom_declaring(b"mdat", 0, &[1; 30]);
    let trak = atom_declaring(b"trak", 8 + 16, &open);
    let mut stream = Stream::new(trak);
    let head = parse_head(&mut stream).unwrap();
    assert_eq!(Trak::parse_atom(&mut stream, head.size()).unwrap(), Trak { mdia: None });
    assert_eq!(stream.position(), 24);
}

#[test]
fn bounds_of_track_and_media() {
    let tkhd = atom(b"tkhd", &[1; 5]);
    let mdia = ext_atom(b"mdia", &concat(&[atom(b"mdhd", &[2; 3]), atom(b"hdlr", &[])]));
    let tail = atom(b"udta", &[3; 2]);
    let trak = atom(b"trak", &concat(&[tkhd.clone(), mdia.clone(), tail.clone()]));
    let mut bytes = vec![0xAB; 7];
    bytes.extend_from_slice(&trak);
    let mut stream = Stream::new(bytes);
    stream.seek_to(7);

    let head = parse_head(&mut stream).unwrap();
    let found = Trak::find_atom(&mut stream, head.size()).unwrap();
    assert_eq!(stream.position(), 7 + trak.len() as u64);

    assert_eq!(found.bounds, head.bounds());
    assert_eq!(found.bounds.start(), 7);
    assert_eq!(found.bounds.content_start(), 15);
    assert_eq!(found.bounds.content_len(), (tkhd.len() + mdia.len() + tail.len()) as u64);

    let media = found.mdia.unwrap().bounds;
    assert_eq!(media.start(), 15 + tkhd.len() as u64);
    assert!(media.size.ext());
    assert_eq!(media.content_start(), media.start() + 16);
    assert_eq!(media.len(), mdia.len() as u64);
    assert_eq!(media.content_len(), 11 + 8);

    // what lies before the media atom, the media atom and what lies behind
    // it make up the content of the track, with nothing left out and
    // nothing twice
    let before = media.start() - found.bounds.content_start();
    let behind = found.bounds.end().unwrap() - media.end().unwrap();
    assert_eq!(before, tkhd.len() as u64);
    assert_eq!(behind, tail.len() as u64);
    assert_eq!(before + media.len() + behind, found.bounds.content_len());
}

#[test]
fn last_media_atom_wins() {
    let first = atom(b"mdia", &atom(b"mdhd", &[1; 4]));
    let second = atom(b"mdia", &[]);
    let trak = atom(b"trak", &concat(&[first.clone(), atom(b"free", &[0; 1]), second]));
    let mut stream = Stream::new(trak);
    let head = parse_head(&mut stream).unwrap();
    let found = Trak::find_atom(&mut stream, head.size()).unwrap();
    let expected = AtomBounds { start: 8 + first.len() as u64 + 9, size: Size::new(false, 8) };
    assert_eq!(found.mdia, Some(MdiaBounds { bounds: expected }));
    stream.seek_to(8);
    assert_eq!(Trak::parse_atom(&mut stream, head.size()).unwrap().mdia, Some(Mdia {}));
}

#[test]
fn truncated_child_head_is_io() {
    let mut trak = atom(b"trak", &concat(&[atom(b"tkhd", &[1; 2]), atom(b"free", &[])]));
    trak.truncate(trak.len() - 3);
    let mut stream = Stream::new(trak);
    let head = parse_head(&mut stream).unwrap();
    let err = Trak::parse_atom(&mut stream, head.size()).unwrap_err();
    assert_eq!(err.kind, ErrorKind::Io);
    assert_eq!(stream.position(), 8);
    let err = Trak::find_atom(&mut stream, head.size()).unwrap_err();
    assert_eq!(err.kind, ErrorKind::Io);
    assert_eq!(stream.position(), 8);
}

#[test]
fn media_atom_that_cannot_be_read_fails_the_track() {
    // the media atom claims 20 bytes of content; the stream ends inside the
    // head of the second atom in it
    let mdia = atom_declaring(b"mdia", 28, &concat(&[atom(b"mdhd", &[]), vec![0, 0, 0]]));
    let trak = atom_declaring(b"trak", 8 + 28, &mdia);
    let mut stream = Stream::new(trak);
    let head = parse_head(&mut stream).unwrap();
    assert_eq!(Trak::parse_atom(&mut stream, head.size()).unwrap_err().kind, ErrorKind::Io);
    assert_eq!(stream.position(), 8);
    assert_eq!(Trak::find_atom(&mut stream, head.size()).unwrap_err().kind, ErrorKind::Io);
    assert_eq!(stream.position(), 8);
}

#[test]
fn atom_that_ends_behind_64_bits_is_io() {
    // an extended size of 2^64 - 1 at offset 8: the atom would end at an
    // offset that does not fit
    let mut huge = vec![0, 0, 0, 1];
    huge.extend_from_slice(b"free");
    huge.extend_from_slice(&u64::MAX.to_be_bytes());
    let trak = atom(b"trak", &huge);
    let mut stream = Stream::new(trak);
    let head = parse_head(&mut stream).unwrap();
    assert_eq!(Trak::parse_atom(&mut stream, head.size()).unwrap_err().kind, ErrorKind::Io);
    assert_eq!(stream.position(), 8);
    assert_eq!(skip_children(&mut stream, 16).unwrap_err().kind, ErrorKind::Io);
    assert_eq!(stream.position(), 8);
}

#[test]
fn media_atom_alone() {
    let mdia = atom(b"mdia", &concat(&[atom(b"mdhd", &[1; 4]), ext_atom(b"minf", &[2; 6])]));
    let mut bytes = vec![0; 2];
    bytes.extend_from_slice(&mdia);
    bytes.extend_from_slice(&[0x44; 9]);
    let mut stream = Stream::new(bytes);
    stream.seek_to(2);
    let head = parse_head(&mut stream).unwrap();
    assert_eq!(head.fourcc(), Fourcc(MEDIA));
    assert_eq!(Mdia::parse_atom(&mut stream, head.size()).unwrap(), Mdia::default());
    assert_eq!(stream.position(), 2 + mdia.len() as u64);
    stream.seek_to(10);
    let found = Mdia::find_atom(&mut stream, head.size()).unwrap();
    assert_eq!(found, MdiaBounds { bounds: head.bounds() });
    assert_eq!(found.bounds.start(), 2);
    assert_eq!(stream.position(), 2 + mdia.len() as u64);
}

#[test]
fn media_atom_with_a_broken_child_is_io() {
    let mut stream = Stream::new(atom_declaring(b"mdia", 8 + 12, &[0, 0, 0, 12, b'm']));
    let head = parse_head(&mut stream).unwrap();
    assert_eq!(Mdia::parse_atom(&mut stream, head.size()).unwrap_err().kind, ErrorKind::Io);
    assert_eq!(stream.position(), 8);
    assert_eq!(Mdia::find_atom(&mut stream, head.size()).unwrap_err().kind, ErrorKind::Io);
    assert_eq!(stream.position(), 8);
}

#[test]
fn skip_children_walks_to_the_end_of_the_content() {
    let content = concat(&[atom(b"aaaa", &[1; 3]), ext_atom(b"bbbb", &[2; 4]), atom(b"cccc", &[])]);
    let len = content.len() as u64;
    let mut stream = Stream::new(content);
    skip_children(&mut stream, len).unwrap();
    assert_eq!(stream.position(), len);
    stream.seek_to(0);
    // a content that ends inside the second atom
    skip_children(&mut stream, 15).unwrap();
    assert_eq!(stream.position(), 15);
    stream.seek_to(4);
    skip_children(&mut stream, 0).unwrap();
    assert_eq!(stream.position(), 4);
    // from offset 4 on the bytes are no atoms: 01 01 01 00 | 00 00 01 ..
    stream.seek_to(len - 4);
    assert_eq!(skip_children(&mut stream, 1).unwrap_err().kind, ErrorKind::Io);
    assert_eq!(stream.position(), len - 4);
}
