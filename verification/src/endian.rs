use vstd::prelude::*;

verus! {

/// The value of two bytes read as a big-endian unsigned integer.
pub open spec fn spec_be_u16(b: Seq<u8>) -> u16
    recommends
        b.len() == 2,
{
    (b[0] as int * 0x100 + b[1] as int) as u16
}

/// The value of four bytes read as a big-endian unsigned integer.
pub open spec fn spec_be_u32(b: Seq<u8>) -> u32
    recommends
        b.len() == 4,
{
    (b[0] as int * 0x100_0000 + b[1] as int * 0x1_0000 + b[2] as int * 0x100 + b[3] as int) as u32
}

/// The value of eight bytes read as a big-endian unsigned integer.
pub open spec fn spec_be_u64(b: Seq<u8>) -> u64
    recommends
        b.len() == 8,
{
    (spec_be_u32(b.subrange(0, 4)) as int * 0x1_0000_0000 + spec_be_u32(b.subrange(4, 8)) as int) as u64
}

/// The two bytes that hold `v` in big-endian order.
pub open spec fn spec_u16_be_bytes(v: u16) -> Seq<u8> {
    seq![(v / 0x100) as u8, (v % 0x100) as u8]
}

/// The four bytes that hold `v` in big-endian order.
pub open spec fn spec_u32_be_bytes(v: u32) -> Seq<u8> {
    seq![
        (v / 0x100_0000) as u8,
        (v / 0x1_0000 % 0x100) as u8,
        (v / 0x100 % 0x100) as u8,
        (v % 0x100) as u8,
    ]
}

/// The eight bytes that hold `v` in big-endian order.
pub open spec fn spec_u64_be_bytes(v: u64) -> Seq<u8> {
    spec_u32_be_bytes((v / 0x1_0000_0000) as u32) + spec_u32_be_bytes((v % 0x1_0000_0000) as u32)
}

/// `s` with `b` written at `index`; where `s` is too short it is first
/// lengthened with zero bytes.
pub open spec fn spec_write_at(s: Seq<u8>, index: int, b: Seq<u8>) -> Seq<u8> {
    Seq::new(
        if s.len() >= index + b.len() {
            s.len()
        } else {
            (index + b.len()) as nat
        },
        |i: int|
            if index <= i < index + b.len() {
                b[i - index]
            } else if i < s.len() {
                s[i]
            } else {
                0u8
            },
    )
}

/// Reading back the big-endian bytes of a 16-bit value gives the value.
pub proof fn lemma_u16_be_round_trip(v: u16)
    ensures
        spec_u16_be_bytes(v).len() == 2,
        spec_be_u16(spec_u16_be_bytes(v)) == v,
{
}

/// Reading back the big-endian bytes of a 32-bit value gives the value.
pub proof fn lemma_u32_be_round_trip(v: u32)
    ensures
        spec_u32_be_bytes(v).len() == 4,
        spec_be_u32(spec_u32_be_bytes(v)) == v,
{
}

/// Reading back the big-endian bytes of a 64-bit value gives the value.
pub proof fn lemma_u64_be_round_trip(v: u64)
    ensures
        spec_u64_be_bytes(v).len() == 8,
        spec_be_u64(spec_u64_be_bytes(v)) == v,
{
    let high = (v / 0x1_0000_0000) as u32;
    let low = (v % 0x1_0000_0000) as u32;
    lemma_u32_be_round_trip(high);
    lemma_u32_be_round_trip(low);
    assert(spec_u64_be_bytes(v).subrange(0, 4) =~= spec_u32_be_bytes(high));
    assert(spec_u64_be_bytes(v).subrange(4, 8) =~= spec_u32_be_bytes(low));
}

/// Combines two bytes, most significant first.
pub fn u16_from_be(b0: u8, b1: u8) -> (v: u16)
    ensures
        v == spec_be_u16(seq![b0, b1]),
{
    (b0 as u16) * 0x100 + (b1 as u16)
}

/// Combines four bytes, most significant first.
pub fn u32_from_be(b0: u8, b1: u8, b2: u8, b3: u8) -> (v: u32)
    ensures
        v == spec_be_u32(seq![b0, b1, b2, b3]),
{
    (b0 as u32) * 0x100_0000 + (b1 as u32) * 0x1_0000 + (b2 as u32) * 0x100 + (b3 as u32)
}

/// Reads the big-endian 16-bit integer that starts at `index`, if the slice
/// holds two bytes from there on.
pub fn be_u16(bytes: &[u8], index: usize) -> (r: Option<u16>)
    ensures
        r == if index + 2 <= bytes@.len() {
            Some(spec_be_u16(bytes@.subrange(index as int, index + 2)))
        } else {
            None
        },
{
    if bytes.len() < 2 || index > bytes.len() - 2 {
        None
    } else {
        let v: u16 = u16_from_be(bytes[index], bytes[index + 1]);
        assert(bytes@.subrange(index as int, index + 2) =~= seq![
            bytes@[index as int],
            bytes@[index + 1],
        ]);
        Some(v)
    }
}

/// Reads the big-endian 32-bit integer that starts at `index`, if the slice
/// holds four bytes from there on.
pub fn be_u32(bytes: &[u8], index: usize) -> (r: Option<u32>)
    ensures
        r == if index + 4 <= bytes@.len() {
            Some(spec_be_u32(bytes@.subrange(index as int, index + 4)))
        } else {
            None
        },
{
    if bytes.len() < 4 || index > bytes.len() - 4 {
        None
    } else {
        let v: u32 = u32_from_be(
            bytes[index],
            bytes[index + 1],
            bytes[index + 2],
            bytes[index + 3],
        );
        assert(bytes@.subrange(index as int, index + 4) =~= seq![
            bytes@[index as int],
            bytes@[index + 1],
            bytes@[index + 2],
            bytes@[index + 3],
        ]);
        Some(v)
    }
}

/// Appends `value` to `out` as a big-endian 32-bit integer.
pub fn push_be_u32(out: &mut Vec<u8>, value: u32)
    ensures
        final(out)@ == old(out)@ + spec_u32_be_bytes(value),
{
    out.push((value / 0x100_0000) as u8);
    out.push((value / 0x1_0000 % 0x100) as u8);
    out.push((value / 0x100 % 0x100) as u8);
    out.push((value % 0x100) as u8);
    assert(out@ =~= old(out)@ + spec_u32_be_bytes(value));
}

/// Appends `value` to `out` as a big-endian 64-bit integer.
pub fn push_be_u64(out: &mut Vec<u8>, value: u64)
    ensures
        final(out)@ == old(out)@ + spec_u64_be_bytes(value),
{
    push_be_u32(out, (value / 0x1_0000_0000) as u32);
    push_be_u32(out, (value % 0x1_0000_0000) as u32);
    assert(out@ =~= old(out)@ + spec_u64_be_bytes(value));
}

/// Writes `value` as a big-endian 16-bit integer at `index`, lengthening the
/// vector with zero bytes where it is too short.
pub fn set_be_u16(bytes: &mut Vec<u8>, index: usize, value: u16)
    requires
        index + 2 <= usize::MAX,
    ensures
        final(bytes)@ == spec_write_at(old(bytes)@, index as int, spec_u16_be_bytes(value)),
{
    let end: usize = index + 2;
    if bytes.len() < end {
        bytes.resize(end, 0);
    }
    bytes[index] = (value / 0x100) as u8;
    bytes[index + 1] = (value % 0x100) as u8;
    assert(bytes@ =~= spec_write_at(old(bytes)@, index as int, spec_u16_be_bytes(value)));
}

/// Writes `value` as a big-endian 32-bit integer at `index`, lengthening the
/// vector with zero bytes where it is too short.
pub fn set_be_u32(bytes: &mut Vec<u8>, index: usize, value: u32)
    requires
        index + 4 <= usize::MAX,
    ensures
        final(bytes)@ == spec_write_at(old(bytes)@, index as int, spec_u32_be_bytes(value)),
{
    let end: usize = index + 4;
    if bytes.len() < end {
        bytes.resize(end, 0);
    }
    bytes[index] = (value / 0x100_0000) as u8;
    bytes[index + 1] = (value / 0x1_0000 % 0x100) as u8;
    bytes[index + 2] = (value / 0x100 % 0x100) as u8;
    bytes[index + 3] = (value % 0x100) as u8;
    assert(bytes@ =~= spec_write_at(old(bytes)@, index as int, spec_u32_be_bytes(value)));
}

} // verus!
