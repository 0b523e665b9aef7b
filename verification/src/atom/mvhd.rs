use vstd::prelude::*;

use crate::atom::head::{parse_full_head, seek_to_end, Size};
use crate::endian::{spec_be_u32, spec_be_u64};
use crate::error::{Error, ErrorKind};
use crate::stream::{remaining_stream_len, ReadData, Stream};
use crate::time::{Duration, NANOS_PER_SEC};

verus! {

/// The movie header atom, of which the duration of the movie is kept.
#[derive(Clone, Copy, Debug, PartialEq, Eq, Structural)]
pub struct Mvhd {
    /// The duration of the movie.
    pub duration: Duration,
}

impl Default for Mvhd {
    /// A movie header with a duration of zero.
    fn default() -> (m: Mvhd)
        ensures
            m == (Mvhd { duration: Duration { secs: 0, nanos: 0 } }),
    {
        Mvhd { duration: Duration { secs: 0, nanos: 0 } }
    }
}

/// The nanoseconds that `ticks` ticks last at `timescale` ticks to the second,
/// rounded down. A timescale of zero gives no measure of time: the duration is
/// then zero.
pub open spec fn spec_duration_nanos(ticks: nat, timescale: nat) -> nat {
    if timescale == 0 {
        0
    } else {
        ticks * (NANOS_PER_SEC as nat) / timescale
    }
}

/// The movie header whose content starts at offset `pos` of `data`.
///
/// The content starts with one byte for the version and three for flags.
/// Version 0 goes on with two 32-bit times, the timescale in 32 bits and the
/// duration in 32 bits; version 1 with two 64-bit times, the timescale in 32
/// bits and the duration in 64 bits.
pub open spec fn spec_parse_mvhd(data: Seq<u8>, pos: int) -> Result<Mvhd, ErrorKind> {
    if pos < 0 || pos + 4 > data.len() {
        Err(ErrorKind::Io)
    } else if data[pos] == 0 {
        if pos + 20 > data.len() {
            Err(ErrorKind::Io)
        } else {
            let timescale = spec_be_u32(data.subrange(pos + 12, pos + 16));
            let ticks = spec_be_u32(data.subrange(pos + 16, pos + 20));
            Ok(
                Mvhd {
                    duration: Duration::spec_from_nanos(
                        spec_duration_nanos(ticks as nat, timescale as nat),
                    ),
                },
            )
        }
    } else if data[pos] == 1 {
        if pos + 32 > data.len() {
            Err(ErrorKind::Io)
        } else {
            let timescale = spec_be_u32(data.subrange(pos + 20, pos + 24));
            let ticks = spec_be_u64(data.subrange(pos + 24, pos + 32));
            Ok(
                Mvhd {
                    duration: Duration::spec_from_nanos(
                        spec_duration_nanos(ticks as nat, timescale as nat),
                    ),
                },
            )
        }
    } else {
        Err(ErrorKind::UnknownVersion(data[pos]))
    }
}

/// The duration of `ticks` ticks at `timescale` ticks to the second.
pub fn duration_of_ticks(ticks: u64, timescale: u32) -> (d: Duration)
    ensures
        d == Duration::spec_from_nanos(spec_duration_nanos(ticks as nat, timescale as nat)),
        d.wf(),
        d.spec_as_nanos() == spec_duration_nanos(ticks as nat, timescale as nat),
{
    if timescale == 0 {
        Duration::from_nanos(0)
    } else {
        assert(ticks * NANOS_PER_SEC == ticks * 1_000_000_000);
        let scaled: u128 = (ticks as u128) * (NANOS_PER_SEC as u128);
        let nanos: u128 = scaled / (timescale as u128);
        assert(nanos <= scaled) by (nonlinear_arith)
            requires
                nanos == scaled / (timescale as u128),
                timescale >= 1,
        ;
        assert(nanos / 1_000_000_000 <= ticks) by (nonlinear_arith)
            requires
                nanos <= ticks * 1_000_000_000,
        ;
        Duration::from_nanos(nanos)
    }
}

impl Mvhd {
    /// Reads a movie header whose content starts at the position of `stream`
    /// and is `size.content_len()` bytes long, and leaves the stream at the
    /// end of that content, however many bytes the header itself took.
    ///
    /// Fails with `ErrorKind::UnknownVersion` where the version is neither 0
    /// nor 1, and with `ErrorKind::Io` where the stream ends before the
    /// duration does or the end of the content lies at an offset that does
    /// not fit in 64 bits. On failure the stream is left where it was.
    pub fn parse_atom(stream: &mut Stream, size: Size) -> (r: Result<Mvhd, Error>)
        requires
            size.wf(),
        ensures
            final(stream).data == old(stream).data,
            match spec_parse_mvhd(old(stream).data@, old(stream).pos as int) {
                Ok(mvhd) => if old(stream).pos + size.content_len() <= u64::MAX {
                    &&& r == Ok::<Mvhd, Error>(mvhd)
                    &&& final(stream).pos == old(stream).pos + size.content_len()
                } else {
                    &&& r matches Err(e)
                    &&& e.kind == ErrorKind::Io
                    &&& final(stream).pos == old(stream).pos
                },
                Err(kind) => {
                    &&& r matches Err(e)
                    &&& e.kind == kind
                    &&& final(stream).pos == old(stream).pos
                },
            },
    {
        let start: u64 = stream.position();
        proof {
            stream.lemma_len_fits();
        }
        let (version, _) = parse_full_head(stream)?;
        let duration = if version == 0 {
            // 4 bytes creation time
            // 4 bytes modification time
            // 4 bytes time scale
            // 4 bytes duration
            if remaining_stream_len(stream) < 16 {
                stream.seek_to(start);
                return Err(Error::io("unexpected end of stream in a movie header"));
            }
            stream.skip(8)?;
            assert(stream.unread().take(4) =~= stream.data@.subrange(start + 12, start + 16));
            let timescale: u32 = stream.read_u32()?;
            assert(stream.unread().take(4) =~= stream.data@.subrange(start + 16, start + 20));
            let ticks: u32 = stream.read_u32()?;
            duration_of_ticks(ticks as u64, timescale)
        } else if version == 1 {
            // 8 bytes creation time
            // 8 bytes modification time
            // 4 bytes time scale
            // 8 bytes duration
            if remaining_stream_len(stream) < 28 {
                stream.seek_to(start);
                return Err(Error::io("unexpected end of stream in a movie header"));
            }
            stream.skip(16)?;
            assert(stream.unread().take(4) =~= stream.data@.subrange(start + 20, start + 24));
            let timescale: u32 = stream.read_u32()?;
            assert(stream.unread().take(8) =~= stream.data@.subrange(start + 24, start + 32));
            let ticks: u64 = stream.read_u64()?;
            duration_of_ticks(ticks, timescale)
        } else {
            stream.seek_to(start);
            return Err(
                Error::new(
                    ErrorKind::UnknownVersion(version),
                    "Error unknown movie header (mvhd) version".to_owned(),
                ),
            );
        };
        match seek_to_end(stream, start, size.content_len()) {
            Ok(_) => Ok(Mvhd { duration }),
            Err(e) => {
                stream.seek_to(start);
                Err(e)
            },
        }
    }
}

} // verus!
