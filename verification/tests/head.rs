use mp4meta::atom::head::{
    find_bounds, parse_full_head, parse_head, seek_to_end, write_head, AtomBounds, Fourcc, Head,
    Size, MEDIA, MOVIE_HEADER, TRACK,
};
use mp4meta::stream::Stream;
use mp4meta::ErrorKind;

#[test]
fn type_codes_are_the_big_endian_value_of_their_letters() {
    assert_eq!(Fourcc::from_bytes(*b"mdia"), Fourcc(MEDIA));
    assert_eq!(Fourcc::from_bytes(*b"mvhd"), Fourcc(MOVIE_HEADER));
    assert_eq!(Fourcc::from_bytes(*b"trak"), Fourcc(TRACK));
    assert_eq!(Fourcc::from_bytes([0, 0, 1, 2]), Fourcc(0x0102));
    assert_ne!(Fourcc::from_bytes(*b"mdia"), Fourcc::from_bytes(*b"aidm"));
}

#[test]
fn head_with_32_bit_size() {
    let mut bytes = vec![0, 0, 0, 20];
    bytes.extend_from_slice(b"trak");
    bytes.extend_from_slice(&[0u8; 12]);
    let mut stream = Stream::new(bytes);
    let head = parse_head(&mut stream).unwrap();
    assert_eq!(head.fourcc(), Fourcc(TRACK));
    assert_eq!(head.len(), 20);
    assert_eq!(head.content_len(), 12);
    assert_eq!(head.size(), Size::new(false, 20));
    assert!(!head.size().ext());
    assert_eq!(head.size().head_len(), 8);
    assert_eq!(head.bounds().start(), 0);
    assert_eq!(head.bounds().content_start(), 8);
    assert_eq!(head.bounds().content_len(), 12);
    assert_eq!(head.bounds().end(), Some(20));
    assert_eq!(stream.position(), 8);
}

#[test]
fn head_with_the_largest_32_bit_size() {
    let mut bytes = vec![0xFF, 0xFF, 0xFF, 0xFF];
    bytes.extend_from_slice(b"free");
    let mut stream = Stream::new(bytes);
    let head = parse_head(&mut stream).unwrap();
    assert_eq!(head.len(), 0xFFFF_FFFF);
    assert_eq!(head.content_len(), 0xFFFF_FFFF - 8);
}

#[test]
fn head_with_extended_size() {
    // size field 1, then the size in 64 bits: N = 0x1_0000_0010
    let mut bytes = vec![0xEE, 0xEE];
    bytes.extend_from_slice(&[0, 0, 0, 1]);
    bytes.extend_from_slice(b"mdat");
    bytes.extend_from_slice(&[0, 0, 0, 1, 0, 0, 0, 0x10]);
    bytes.extend_from_slice(&[7u8; 4]);
    let mut stream = Stream::new(bytes);
    stream.seek_to(2);
    let head = parse_head(&mut stream).unwrap();
    assert_eq!(head.fourcc(), Fourcc::from_bytes(*b"mdat"));
    assert!(head.size().ext());
    assert_eq!(head.size().head_len(), 16);
    assert_eq!(head.len(), 0x1_0000_0010);
    assert_eq!(head.content_len(), 0x1_0000_0010 - 16);
    assert_eq!(head.bounds().start(), 2);
    assert_eq!(head.bounds().content_start(), 18);
    assert_eq!(head.bounds().end(), Some(2 + 0x1_0000_0010));
    assert_eq!(stream.position(), 18);
}

#[test]
fn head_with_a_small_extended_size() {
    let mut bytes = vec![0, 0, 0, 1];
    bytes.extend_from_slice(b"mdat");
    bytes.extend_from_slice(&[0, 0, 0, 0, 0, 0, 0, 40]);
    let mut stream = Stream::new(bytes);
    let head = parse_head(&mut stream).unwrap();
    assert_eq!(head.content_len(), 40 - 16);
    assert_eq!(head.len(), 40);
}

#[test]
fn head_that_runs_to_the_end_of_the_stream() {
    let mut bytes = vec![0xAA; 3];
    bytes.extend_from_slice(&[0, 0, 0, 0]);
    bytes.extend_from_slice(b"mdat");
    bytes.extend_from_slice(&[1u8; 21]);
    let mut stream = Stream::new(bytes);
    stream.seek_to(3);
    let head = parse_head(&mut stream).unwrap();
    assert!(!head.size().ext());
    assert_eq!(head.content_len(), 21);
    assert_eq!(head.len(), 29);
    assert_eq!(head.bounds().end(), Some(32));
    assert_eq!(stream.position(), 11);

    let mut bare = vec![0, 0, 0, 0];
    bare.extend_from_slice(b"mdat");
    let head = parse_head(&mut Stream::new(bare)).unwrap();
    assert_eq!(head.content_len(), 0);
    assert_eq!(head.len(), 8);
}

#[test]
fn size_smaller_than_the_head_leaves_no_content() {
    for declared in 2u8..8 {
        let mut bytes = vec![0, 0, 0, declared];
        bytes.extend_from_slice(b"free");
        let mut stream = Stream::new(bytes);
        let head = parse_head(&mut stream).unwrap();
        assert_eq!(head.len(), 8);
        assert_eq!(head.content_len(), 0);
        assert_eq!(stream.position(), 8);
    }
    for declared in 0u8..16 {
        let mut bytes = vec![0, 0, 0, 1];
        bytes.extend_from_slice(b"free");
        bytes.extend_from_slice(&[0, 0, 0, 0, 0, 0, 0, declared]);
        let head = parse_head(&mut Stream::new(bytes)).unwrap();
        assert_eq!(head.len(), 16);
        assert_eq!(head.content_len(), 0);
    }
    assert_eq!(Size::new(false, 0), Size::new(false, 8));
    assert_eq!(Size::new(true, 15).len(), 16);
    assert_eq!(Size::new(true, 15).content_len(), 0);
    assert_eq!(Size::new(false, 8).content_len(), 0);
    assert_eq!(Size::new(false, 9).content_len(), 1);
    assert_eq!(Size::new(true, u64::MAX).content_len(), u64::MAX - 16);
}

#[test]
fn short_head_is_io_and_leaves_the_stream() {
    for len in 0..8 {
        let mut bytes = vec![0, 0, 0, 16, b't', b'r', b'a', b'k'];
        bytes.truncate(len);
        let mut stream = Stream::new(bytes);
        let err = parse_head(&mut stream).unwrap_err();
        assert_eq!(err.kind, ErrorKind::Io);
        assert_eq!(stream.position(), 0);
    }
    for len in 8..16 {
        let mut bytes = vec![0, 0, 0, 1, b't', b'r', b'a', b'k', 0, 0, 0, 0, 0, 0, 0, 32];
        bytes.truncate(len);
        let mut stream = Stream::new(bytes);
        let err = parse_head(&mut stream).unwrap_err();
        assert_eq!(err.kind, ErrorKind::Io);
        assert_eq!(stream.position(), 0);
    }
    let mut behind = Stream::new(vec![0; 16]);
    behind.seek_to(40);
    assert_eq!(parse_head(&mut behind).unwrap_err().kind, ErrorKind::Io);
    assert_eq!(behind.position(), 40);
}

#[test]
fn version_and_flags() {
    let mut stream = Stream::new(vec![1, 0xA, 0xB, 0xC, 9]);
    assert_eq!(parse_full_head(&mut stream).unwrap(), (1, [0xA, 0xB, 0xC]));
    assert_eq!(stream.position(), 4);
    assert_eq!(parse_full_head(&mut stream).unwrap_err().kind, ErrorKind::Io);
    assert_eq!(stream.position(), 4);
}

#[test]
fn bounds_behind_a_head() {
    let mut bytes = vec![0u8; 5];
    bytes.extend_from_slice(&[0, 0, 0, 24]);
    bytes.extend_from_slice(b"mdia");
    bytes.extend_from_slice(&[0u8; 16]);
    let mut stream = Stream::new(bytes);
    stream.seek_to(5);
    let head = parse_head(&mut stream).unwrap();
    let bounds = find_bounds(&stream, head.size());
    assert_eq!(bounds, head.bounds());
    assert_eq!(bounds, AtomBounds { start: 5, size: Size::new(false, 24) });
    assert_eq!(bounds.start(), 5);
    assert_eq!(bounds.content_start(), 13);
    assert_eq!(bounds.content_len(), 16);
    assert_eq!(bounds.len(), 24);
    assert_eq!(bounds.end(), Some(29));
    assert_eq!(head, Head { fourcc: Fourcc(MEDIA), bounds });
}

#[test]
fn end_that_does_not_fit() {
    let bounds = AtomBounds { start: 16, size: Size::new(true, u64::MAX - 15) };
    assert_eq!(bounds.end(), None);
    let bounds = AtomBounds { start: 16, size: Size::new(true, u64::MAX - 16) };
    assert_eq!(bounds.end(), Some(u64::MAX));
}

#[test]
fn seek_to_end_goes_to_the_end_of_the_content() {
    let mut stream = Stream::new(vec![0; 4]);
    stream.seek_to(3);
    seek_to_end(&mut stream, 10, 20).unwrap();
    assert_eq!(stream.position(), 30);
    seek_to_end(&mut stream, 1, 0).unwrap();
    assert_eq!(stream.position(), 1);
    assert_eq!(seek_to_end(&mut stream, u64::MAX, 1).unwrap_err().kind, ErrorKind::Io);
    assert_eq!(stream.position(), 1);
    seek_to_end(&mut stream, u64::MAX - 1, 1).unwrap();
    assert_eq!(stream.position(), u64::MAX);
}

#[test]
fn write_head_layout() {
    let mut out = vec![0xAA];
    write_head(&mut out, Fourcc(TRACK), Size::new(false, 0x0102_0304));
    assert_eq!(out, vec![0xAA, 1, 2, 3, 4, b't', b'r', b'a', b'k']);

    let mut out: Vec<u8> = Vec::new();
    write_head(&mut out, Fourcc(MEDIA), Size::new(true, 0x0102_0304_0506_0708));
    assert_eq!(out, vec![0, 0, 0, 1, b'm', b'd', b'i', b'a', 1, 2, 3, 4, 5, 6, 7, 8]);
}

#[test]
fn written_head_is_read_back() {
    let sizes = [
        Size::new(false, 8),
        Size::new(false, 9),
        Size::new(false, u32::MAX as u64),
        Size::new(true, 16),
        Size::new(true, 17),
        Size::new(true, u32::MAX as u64 + 1),
        Size::new(true, u64::MAX),
    ];
    for size in sizes {
        let mut bytes = vec![0x11; 5];
        write_head(&mut bytes, Fourcc(MOVIE_HEADER), size);
        bytes.extend_from_slice(&[0x22; 3]);
        let mut stream = Stream::new(bytes);
        stream.seek_to(5);
        let head = parse_head(&mut stream).unwrap();
        assert_eq!(head, Head { fourcc: Fourcc(MOVIE_HEADER), bounds: AtomBounds { start: 5, size } });
        assert_eq!(stream.position(), 5 + size.head_len());
    }
}
