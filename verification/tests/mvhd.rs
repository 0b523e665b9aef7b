use mp4meta::atom::head::Size;
use mp4meta::atom::mvhd::{duration_of_ticks, Mvhd};
use mp4meta::stream::Stream;
use mp4meta::time::Duration;
use mp4meta::ErrorKind;

/// The content of a version 0 movie header, with `tail` further bytes.
fn version_0(timescale: u32, ticks: u32, tail: usize) -> Vec<u8> {
    let mut bytes = vec![0, 0, 0, 0];
    bytes.extend_from_slice(&[0xC1; 4]);
    bytes.extend_from_slice(&[0xC2; 4]);
    bytes.extend_from_slice(&timescale.to_be_bytes());
    bytes.extend_from_slice(&ticks.to_be_bytes());
    bytes.extend_from_slice(&vec![0x77; tail]);
    bytes
}

/// The content of a version 1 movie header, with `tail` further bytes.
fn version_1(timescale: u32, ticks: u64, tail: usize) -> Vec<u8> {
    let mut bytes = vec![1, 0, 0, 0];
    bytes.extend_from_slice(&[0xC1; 8]);
    bytes.extend_from_slice(&[0xC2; 8]);
    bytes.extend_from_slice(&timescale.to_be_bytes());
    bytes.extend_from_slice(&ticks.to_be_bytes());
    bytes.extend_from_slice(&vec![0x77; tail]);
    bytes
}

#[test]
fn version_0_duration() {
    let content = version_0(1000, 5000, 80);
    let size = Size::new(false, 8 + content.len() as u64);
    let mut stream = Stream::new(content);
    let mvhd = Mvhd::parse_atom(&mut stream, size).unwrap();
    assert_eq!(mvhd.duration, Duration::from_secs(5));
    assert_eq!(mvhd.duration.as_nanos(), 5_000_000_000);
    assert_eq!(stream.position(), 100);
}

#[test]
fn version_1_duration() {
    let content = version_1(48000, 48000, 80);
    let size = Size::new(false, 8 + content.len() as u64);
    let mut stream = Stream::new(content);
    let mvhd = Mvhd::parse_atom(&mut stream, size).unwrap();
    assert_eq!(mvhd.duration, Duration::from_secs(1));
    assert_eq!(mvhd.duration.as_secs(), 1);
    assert_eq!(mvhd.duration.subsec_nanos(), 0);
    assert_eq!(stream.position(), 112);
}

#[test]
fn duration_is_rounded_down_to_the_nanosecond() {
    // 1 tick of 3 to the second: 333_333_333.3 ns
    assert_eq!(duration_of_ticks(1, 3), Duration { secs: 0, nanos: 333_333_333 });
    // 2 ticks of 3 to the second: 666_666_666.6 ns
    assert_eq!(duration_of_ticks(2, 3).as_nanos(), 666_666_666);
    // 90001 ticks of 90000 to the second
    assert_eq!(duration_of_ticks(90_001, 90_000), Duration { secs: 1, nanos: 11_111 });
    assert_eq!(duration_of_ticks(0, 44_100), Duration::from_secs(0));
}

#[test]
fn long_durations_do_not_overflow() {
    // more ticks than fit in 64 bits once multiplied by a billion
    let mvhd_content = version_1(1, u64::MAX, 0);
    let size = Size::new(false, 8 + mvhd_content.len() as u64);
    let mvhd = Mvhd::parse_atom(&mut Stream::new(mvhd_content), size).unwrap();
    assert_eq!(mvhd.duration, Duration::from_secs(u64::MAX));
    assert_eq!(mvhd.duration.as_nanos(), u64::MAX as u128 * 1_000_000_000);
    assert_eq!(
        duration_of_ticks(u64::MAX, u32::MAX).as_nanos(),
        u64::MAX as u128 * 1_000_000_000 / u32::MAX as u128
    );
    assert_eq!(duration_of_ticks(20_000_000_000, 1000), Duration::from_secs(20_000_000));
}

#[test]
fn timescale_of_zero_gives_no_duration() {
    assert_eq!(duration_of_ticks(5000, 0), Duration::from_secs(0));
    let content = version_0(0, 5000, 0);
    let size = Size::new(false, 28);
    let mvhd = Mvhd::parse_atom(&mut Stream::new(content), size).unwrap();
    assert_eq!(mvhd.duration, Duration::default());
    assert_eq!(mvhd, Mvhd::default());
}

#[test]
fn unknown_version() {
    for version in [2u8, 3, 255] {
        let mut content = version_0(1000, 5000, 40);
        content[0] = version;
        let mut stream = Stream::new(content);
        stream.seek_to(0);
        let err = Mvhd::parse_atom(&mut stream, Size::new(false, 68)).unwrap_err();
        assert_eq!(err.kind, ErrorKind::UnknownVersion(version));
        assert_eq!(stream.position(), 0);
    }
}

#[test]
fn truncated_movie_header_is_io() {
    for len in 0..20 {
        let mut content = version_0(1000, 5000, 0);
        content.truncate(len);
        let mut stream = Stream::new(content);
        let err = Mvhd::parse_atom(&mut stream, Size::new(false, 28)).unwrap_err();
        assert_eq!(err.kind, ErrorKind::Io);
        assert_eq!(stream.position(), 0);
    }
    for len in 0..32 {
        let mut content = version_1(1000, 5000, 0);
        content.truncate(len);
        let mut stream = Stream::new(content);
        let err = Mvhd::parse_atom(&mut stream, Size::new(false, 40)).unwrap_err();
        assert_eq!(err.kind, ErrorKind::Io);
        assert_eq!(stream.position(), 0);
    }
}

#[test]
fn stream_ends_at_the_declared_end_whatever_was_read() {
    // the declared content is shorter than what the header took
    let mut bytes = vec![0xEE; 3];
    bytes.extend_from_slice(&version_0(600, 1200, 10));
    let mut stream = Stream::new(bytes);
    stream.seek_to(3);
    let mvhd = Mvhd::parse_atom(&mut stream, Size::new(false, 8 + 6)).unwrap();
    assert_eq!(mvhd.duration, Duration::from_secs(2));
    assert_eq!(stream.position(), 3 + 6);

    // the declared content reaches behind the end of the stream
    let mut stream = Stream::new(version_0(600, 1200, 0));
    Mvhd::parse_atom(&mut stream, Size::new(false, 8 + 500)).unwrap();
    assert_eq!(stream.position(), 500);
}

#[test]
fn end_that_does_not_fit_is_io() {
    // the content would end at offset 17 + (2^64 - 1 - 16)
    let mut bytes = vec![0xEE; 17];
    bytes.extend_from_slice(&version_0(600, 1200, 0));
    let mut stream = Stream::new(bytes);
    stream.seek_to(17);
    let err = Mvhd::parse_atom(&mut stream, Size::new(true, u64::MAX)).unwrap_err();
    assert_eq!(err.kind, ErrorKind::Io);
    assert_eq!(stream.position(), 17);
    let mvhd = Mvhd::parse_atom(&mut stream, Size::new(true, u64::MAX - 1)).unwrap();
    assert_eq!(mvhd.duration, Duration::from_secs(2));
    assert_eq!(stream.position(), u64::MAX);
}
