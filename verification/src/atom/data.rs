use vstd::prelude::*;
use vstd::std_specs::cmp::PartialEqSpecImpl;
use vstd::std_specs::convert::FromSpecImpl;
use vstd::utf8::*;

use crate::endian::{lemma_u32_be_round_trip, push_be_u32, spec_be_u32, spec_u32_be_bytes};
use crate::error::{Error, ErrorKind};
use crate::stream::{spec_be_units, spec_decode_utf16, spec_decode_utf8, ReadData};
use crate::text::{encode_utf16, lemma_utf16_round_trip, utf16_units};

verus! {

/// Type code of data whose type is left open.
pub const RESERVED: u32 = 0;

/// Type code of UTF-8 text, without a length and without a terminator.
pub const UTF8: u32 = 1;

/// Type code of big-endian UTF-16 text.
pub const UTF16: u32 = 2;

/// Type code of UTF-8 text that is only used for sorting.
pub const UTF8_SORT: u32 = 4;

/// Type code of UTF-16 text that is only used for sorting.
pub const UTF16_SORT: u32 = 5;

/// Type code of a JPEG image in a JFIF wrapper.
pub const JPEG: u32 = 13;

/// Type code of a PNG image.
pub const PNG: u32 = 14;

/// Type code of a big-endian signed integer of one to four bytes.
pub const BE_SIGNED: u32 = 21;

/// Type code of a big-endian unsigned integer of one to four bytes.
pub const BE_UNSIGNED: u32 = 22;

/// Type code of a big-endian 32-bit floating point number.
pub const BE_F32: u32 = 23;

/// Type code of a big-endian 64-bit floating point number.
pub const BE_F64: u32 = 24;

/// Type code of a Windows bitmap image.
pub const BMP: u32 = 27;

/// Type code of a QuickTime metadata atom.
pub const QT_META: u32 = 28;

/// Type code of an 8-bit signed integer.
pub const I8: u32 = 65;

/// Type code of a big-endian 16-bit signed integer.
pub const BE_I16: u32 = 66;

/// Type code of a big-endian 32-bit signed integer.
pub const BE_I32: u32 = 67;

/// Type code of a point: two big-endian 32-bit floating point coordinates.
pub const BE_POINT_F32: u32 = 70;

/// Type code of dimensions: a big-endian 32-bit floating point width and
/// height.
pub const BE_DIMS_F32: u32 = 71;

/// Type code of a rectangle: a point and dimensions.
pub const BE_RECT_F32: u32 = 72;

/// Type code of a big-endian 64-bit signed integer.
pub const BE_I64: u32 = 74;

/// Type code of an 8-bit unsigned integer.
pub const U8: u32 = 75;

/// Type code of a big-endian 16-bit unsigned integer.
pub const BE_U16: u32 = 76;

/// Type code of a big-endian 32-bit unsigned integer.
pub const BE_U32: u32 = 77;

/// Type code of a big-endian 64-bit unsigned integer.
pub const BE_U64: u32 = 78;

/// Type code of a 3x3 matrix of big-endian 64-bit floating point numbers.
pub const AFFINE_TRANSFORM_F64: u32 = 79;

/// The format of an image.
#[derive(Clone, Copy, Debug, PartialEq, Eq, Structural)]
pub enum ImgFmt {
    Bmp,
    Jpeg,
    Png,
}

/// Image data together with its format.
#[derive(Clone, Debug, PartialEq, Eq)]
pub struct Img<T> {
    /// The format of the image.
    pub fmt: ImgFmt,
    /// The bytes of the image.
    pub data: T,
}

/// An image whose bytes are borrowed.
pub type ImgRef<'a> = Img<&'a [u8]>;

/// An image whose bytes are borrowed and can be changed.
pub type ImgMut<'a> = Img<&'a mut Vec<u8>>;

/// An image that owns its bytes.
pub type ImgBuf = Img<Vec<u8>>;

impl<T> Img<T> {
    /// An image of the given format with the given data.
    pub fn new(fmt: ImgFmt, data: T) -> (img: Img<T>)
        ensures
            img.fmt == fmt,
            img.data == data,
    {
        Img { fmt, data }
    }
}

/// A metadata value: its kind, and what it holds.
#[derive(Clone, Debug)]
pub enum Data {
    /// Data of the reserved type: plain bytes.
    Reserved(Vec<u8>),
    /// Text that is stored as UTF-8.
    Utf8(String),
    /// Text that is stored as big-endian UTF-16.
    Utf16(String),
    /// The bytes of a JPEG image.
    Jpeg(Vec<u8>),
    /// The bytes of a PNG image.
    Png(Vec<u8>),
    /// The bytes of a big-endian signed integer.
    BeSigned(Vec<u8>),
    /// The bytes of a BMP image.
    Bmp(Vec<u8>),
}

/// The mathematical value of a [`Data`]: bytes as a sequence of bytes, text
/// as a sequence of characters.
pub enum DataView {
    Reserved(Seq<u8>),
    Utf8(Seq<char>),
    Utf16(Seq<char>),
    Jpeg(Seq<u8>),
    Png(Seq<u8>),
    BeSigned(Seq<u8>),
    Bmp(Seq<u8>),
}

impl View for Data {
    type V = DataView;

    open spec fn view(&self) -> DataView {
        match self {
            Data::Reserved(v) => DataView::Reserved(v@),
            Data::Utf8(s) => DataView::Utf8(s@),
            Data::Utf16(s) => DataView::Utf16(s@),
            Data::Jpeg(v) => DataView::Jpeg(v@),
            Data::Png(v) => DataView::Png(v@),
            Data::BeSigned(v) => DataView::BeSigned(v@),
            Data::Bmp(v) => DataView::Bmp(v@),
        }
    }
}

impl PartialEq for Data {
    /// Two values are equal where they are of one kind and hold the same
    /// bytes or the same text.
    fn eq(&self, other: &Self) -> (r: bool) {
        match (self, other) {
            (Data::Reserved(a), Data::Reserved(b)) => bytes_eq(a.as_slice(), b.as_slice()),
            (Data::Utf8(a), Data::Utf8(b)) => *a == *b,
            (Data::Utf16(a), Data::Utf16(b)) => *a == *b,
            (Data::Jpeg(a), Data::Jpeg(b)) => bytes_eq(a.as_slice(), b.as_slice()),
            (Data::Png(a), Data::Png(b)) => bytes_eq(a.as_slice(), b.as_slice()),
            (Data::BeSigned(a), Data::BeSigned(b)) => bytes_eq(a.as_slice(), b.as_slice()),
            (Data::Bmp(a), Data::Bmp(b)) => bytes_eq(a.as_slice(), b.as_slice()),
            _ => false,
        }
    }
}

impl PartialEqSpecImpl for Data {
    open spec fn obeys_eq_spec() -> bool {
        true
    }

    open spec fn eq_spec(&self, other: &Self) -> bool {
        self@ == other@
    }
}

impl Eq for Data {

}

impl From<ImgBuf> for Data {
    /// The image value of the format and with the bytes of `image`.
    fn from(image: ImgBuf) -> (d: Data) {
        match image.fmt {
            ImgFmt::Bmp => Data::Bmp(image.data),
            ImgFmt::Jpeg => Data::Jpeg(image.data),
            ImgFmt::Png => Data::Png(image.data),
        }
    }
}

impl FromSpecImpl<ImgBuf> for Data {
    open spec fn obeys_from_spec() -> bool {
        true
    }

    open spec fn from_spec(image: ImgBuf) -> Data {
        match image.fmt {
            ImgFmt::Bmp => Data::Bmp(image.data),
            ImgFmt::Jpeg => Data::Jpeg(image.data),
            ImgFmt::Png => Data::Png(image.data),
        }
    }
}

/// True where two runs of bytes hold the same bytes.
fn bytes_eq(a: &[u8], b: &[u8]) -> (r: bool)
    ensures
        r == (a@ == b@),
{
    if a.len() != b.len() {
        return false;
    }
    let mut i: usize = 0;
    while i < a.len()
        invariant
            a@.len() == b@.len(),
            i <= a@.len(),
            forall|j: int| 0 <= j < i ==> a@[j] == b@[j],
        decreases a@.len() - i,
    {
        if a[i] != b[i] {
            return false;
        }
        i += 1;
    }
    assert(a@ =~= b@);
    true
}

/// The bytes that hold a sequence of 16-bit units in big-endian order.
pub open spec fn spec_units_be_bytes(units: Seq<u16>) -> Seq<u8> {
    Seq::new(
        2 * units.len(),
        |i: int|
            if i % 2 == 0 {
                (units[i / 2] / 0x100) as u8
            } else {
                (units[i / 2] % 0x100) as u8
            },
    )
}

impl DataView {
    /// The type code under which a value of this kind is stored.
    pub open spec fn type_code(self) -> u32 {
        match self {
            DataView::Reserved(_) => RESERVED,
            DataView::Utf8(_) => UTF8,
            DataView::Utf16(_) => UTF16,
            DataView::Jpeg(_) => JPEG,
            DataView::Png(_) => PNG,
            DataView::BeSigned(_) => BE_SIGNED,
            DataView::Bmp(_) => BMP,
        }
    }

    /// The stored form of the value without its header: text in its
    /// encoding, bytes as they are.
    pub open spec fn raw_bytes(self) -> Seq<u8> {
        match self {
            DataView::Reserved(b) => b,
            DataView::Utf8(s) => encode_utf8(s),
            DataView::Utf16(s) => spec_units_be_bytes(encode_utf16(s)),
            DataView::Jpeg(b) => b,
            DataView::Png(b) => b,
            DataView::BeSigned(b) => b,
            DataView::Bmp(b) => b,
        }
    }

    /// The stored form of the value with its header: the type code in four
    /// bytes, four zero bytes, then the raw bytes.
    pub open spec fn typed_bytes(self) -> Seq<u8> {
        spec_u32_be_bytes(self.type_code()) + seq![0u8, 0u8, 0u8, 0u8] + self.raw_bytes()
    }

    /// The length of the value: the number of UTF-16 code units of UTF-16
    /// text, else the number of raw bytes.
    pub open spec fn len(self) -> nat {
        match self {
            DataView::Utf16(s) => encode_utf16(s).len(),
            _ => self.raw_bytes().len(),
        }
    }

    /// The bytes of a value that holds plain bytes.
    pub open spec fn bytes(self) -> Option<Seq<u8>> {
        match self {
            DataView::Reserved(b) => Some(b),
            DataView::BeSigned(b) => Some(b),
            _ => None,
        }
    }

    /// The characters of a value that holds text.
    pub open spec fn string(self) -> Option<Seq<char>> {
        match self {
            DataView::Utf8(s) => Some(s),
            DataView::Utf16(s) => Some(s),
            _ => None,
        }
    }

    /// The format and the bytes of a value that holds an image.
    pub open spec fn image(self) -> Option<(ImgFmt, Seq<u8>)> {
        match self {
            DataView::Jpeg(b) => Some((ImgFmt::Jpeg, b)),
            DataView::Png(b) => Some((ImgFmt::Png, b)),
            DataView::Bmp(b) => Some((ImgFmt::Bmp, b)),
            _ => None,
        }
    }

}

/// True of the type codes that a [`Data`] kind exists for. The other type
/// codes, those with a name among them, stand for nothing that can be read.
pub open spec fn spec_is_known_code(code: u32) -> bool {
    code == RESERVED || code == UTF8 || code == UTF16 || code == JPEG || code == PNG || code
        == BE_SIGNED || code == BMP
}

/// The value that a payload stands for under a type code.
pub open spec fn spec_decode(code: u32, payload: Seq<u8>) -> Result<DataView, ErrorKind> {
    if code == RESERVED {
        Ok(DataView::Reserved(payload))
    } else if code == UTF8 {
        match spec_decode_utf8(payload) {
            Ok(chars) => Ok(DataView::Utf8(chars)),
            Err(kind) => Err(kind),
        }
    } else if code == UTF16 {
        match spec_decode_utf16(payload) {
            Ok(chars) => Ok(DataView::Utf16(chars)),
            Err(kind) => Err(kind),
        }
    } else if code == JPEG {
        Ok(DataView::Jpeg(payload))
    } else if code == PNG {
        Ok(DataView::Png(payload))
    } else if code == BE_SIGNED {
        Ok(DataView::BeSigned(payload))
    } else if code == BMP {
        Ok(DataView::Bmp(payload))
    } else {
        Err(ErrorKind::UnknownDataType(code))
    }
}

/// Splitting the big-endian bytes of 16-bit units into units again gives the
/// units back.
pub proof fn lemma_units_round_trip(units: Seq<u16>)
    ensures
        spec_units_be_bytes(units).len() == 2 * units.len(),
        spec_be_units(spec_units_be_bytes(units)) == units,
{
    let bytes = spec_units_be_bytes(units);
    assert forall|i: int| 0 <= i < units.len() implies spec_be_units(bytes)[i] == units[i] by {
        let pair = bytes.subrange(2 * i, 2 * i + 2);
        assert(pair[0] == bytes[2 * i]);
        assert(pair[1] == bytes[2 * i + 1]);
    }
    assert(spec_be_units(bytes) =~= units);
}

/// Decoding the raw bytes of a value under its own type code gives the value
/// back, whatever its kind.
pub proof fn lemma_raw_round_trip(v: DataView)
    ensures
        spec_is_known_code(v.type_code()),
        spec_decode(v.type_code(), v.raw_bytes()) == Ok::<DataView, ErrorKind>(v),
{
    match v {
        DataView::Utf8(s) => {
            encode_utf8_valid_utf8(s);
            encode_utf8_decode_utf8(s);
        },
        DataView::Utf16(s) => {
            lemma_units_round_trip(encode_utf16(s));
            lemma_utf16_round_trip(s);
        },
        _ => {},
    }
}

/// The typed form of a value starts with the type code of its kind and four
/// zero bytes, and what follows decodes under that code to the value itself.
pub proof fn lemma_typed_round_trip(v: DataView)
    ensures
        v.typed_bytes().len() == 8 + v.raw_bytes().len(),
        spec_be_u32(v.typed_bytes().take(4)) == v.type_code(),
        v.typed_bytes().subrange(4, 8) == seq![0u8, 0u8, 0u8, 0u8],
        spec_decode(v.type_code(), v.typed_bytes().skip(8)) == Ok::<DataView, ErrorKind>(v),
{
    lemma_u32_be_round_trip(v.type_code());
    lemma_raw_round_trip(v);
    assert(v.typed_bytes().take(4) =~= spec_u32_be_bytes(v.type_code()));
    assert(v.typed_bytes().subrange(4, 8) =~= seq![0u8, 0u8, 0u8, 0u8]);
    assert(v.typed_bytes().skip(8) =~= v.raw_bytes());
}

/// Appends `bytes` to `out`.
fn append_bytes(out: &mut Vec<u8>, bytes: &[u8])
    ensures
        final(out)@ == old(out)@ + bytes@,
{
    out.extend_from_slice(bytes);
    assert(out@ =~= old(out)@ + bytes@);
}

impl Data {
    /// Appends the raw form of the value to `writer`: UTF-16 text unit by
    /// unit as big-endian pairs, UTF-8 text as its bytes, anything else as
    /// the bytes it holds.
    pub fn write_raw(&self, writer: &mut Vec<u8>)
        ensures
            final(writer)@ == old(writer)@ + self@.raw_bytes(),
    {
        match self {
            Data::Reserved(v) => {
                append_bytes(writer, v.as_slice());
            },
            Data::Utf8(s) => {
                append_bytes(writer, s.as_str().as_bytes());
            },
            Data::Utf16(s) => {
                let units = utf16_units(s.as_str());
                let mut i: usize = 0;
                while i < units.len()
                    invariant
                        i <= units@.len(),
                        writer@ == old(writer)@ + spec_units_be_bytes(units@.take(i as int)),
                    decreases units@.len() - i,
                {
                    let unit: u16 = units[i];
                    writer.push((unit / 0x100) as u8);
                    writer.push((unit % 0x100) as u8);
                    assert(writer@ =~= old(writer)@ + spec_units_be_bytes(
                        units@.take(i as int + 1),
                    ));
                    i += 1;
                }
                assert(units@.take(i as int) =~= units@);
            },
            Data::Jpeg(v) => {
                append_bytes(writer, v.as_slice());
            },
            Data::Png(v) => {
                append_bytes(writer, v.as_slice());
            },
            Data::BeSigned(v) => {
                append_bytes(writer, v.as_slice());
            },
            Data::Bmp(v) => {
                append_bytes(writer, v.as_slice());
            },
        }
    }

    /// Appends the typed form of the value to `writer`: the type code of its
    /// kind in four big-endian bytes, four zero bytes for the locale, then
    /// the raw form.
    pub fn write_typed(&self, writer: &mut Vec<u8>)
        ensures
            final(writer)@ == old(writer)@ + self@.typed_bytes(),
    {
        let datatype: u32 = match self {
            Data::Reserved(_) => RESERVED,
            Data::Utf8(_) => UTF8,
            Data::Utf16(_) => UTF16,
            Data::Jpeg(_) => JPEG,
            Data::Png(_) => PNG,
            Data::BeSigned(_) => BE_SIGNED,
            Data::Bmp(_) => BMP,
        };
        push_be_u32(writer, datatype);
        // 4 bytes locale indicator
        push_be_u32(writer, 0);
        assert(spec_u32_be_bytes(0) =~= seq![0u8, 0u8, 0u8, 0u8]);
        self.write_raw(writer);
        assert(writer@ =~= old(writer)@ + self@.typed_bytes());
    }

    /// Reads the next `len` bytes of `reader` as a value of the kind that the
    /// type code `datatype` names.
    ///
    /// An unknown type code fails with `ErrorKind::UnknownDataType` before
    /// anything is read. With fewer than `len` bytes left the read fails with
    /// `ErrorKind::Io` and takes none. Text that does not decode fails with
    /// `ErrorKind::StringDecode`, its bytes taken.
    pub fn parse<R: ReadData>(reader: &mut R, datatype: u32, len: u64) -> (r: Result<Data, Error>)
        ensures
            !spec_is_known_code(datatype) ==> {
                &&& r matches Err(e)
                &&& e.kind == ErrorKind::UnknownDataType(datatype)
                &&& *final(reader) == *old(reader)
            },
            spec_is_known_code(datatype) && old(reader).unread().len() < len ==> {
                &&& r matches Err(e)
                &&& e.kind == ErrorKind::Io
                &&& final(reader).unread() == old(reader).unread()
                &&& final(reader).advanced_from(old(reader), 0)
            },
            spec_is_known_code(datatype) && old(reader).unread().len() >= len ==> {
                &&& final(reader).unread() == old(reader).unread().skip(len as int)
                &&& final(reader).advanced_from(old(reader), len as nat)
                &&& match spec_decode(datatype, old(reader).unread().take(len as int)) {
                    Ok(v) => r matches Ok(d) && d@ == v,
                    Err(kind) => r matches Err(e) && e.kind == kind,
                }
            },
    {
        if datatype == RESERVED {
            Ok(Data::Reserved(reader.read_u8_vec(len)?))
        } else if datatype == UTF8 {
            Ok(Data::Utf8(reader.read_utf8(len)?))
        } else if datatype == UTF16 {
            Ok(Data::Utf16(reader.read_utf16(len)?))
        } else if datatype == JPEG {
            Ok(Data::Jpeg(reader.read_u8_vec(len)?))
        } else if datatype == PNG {
            Ok(Data::Png(reader.read_u8_vec(len)?))
        } else if datatype == BE_SIGNED {
            Ok(Data::BeSigned(reader.read_u8_vec(len)?))
        } else if datatype == BMP {
            Ok(Data::Bmp(reader.read_u8_vec(len)?))
        } else {
            Err(Error::new(ErrorKind::UnknownDataType(datatype), "Unknown datatype code".to_owned()))
        }
    }

    /// The length of the value: for UTF-16 text the number of UTF-16 code
    /// units, for anything else the number of bytes of its raw form.
    pub fn len(&self) -> (n: u64)
        ensures
            n == self@.len(),
    {
        match self {
            Data::Reserved(v) => v.len() as u64,
            Data::Utf8(s) => s.as_str().as_bytes().len() as u64,
            Data::Utf16(s) => utf16_units(s.as_str()).len() as u64,
            Data::Jpeg(v) => v.len() as u64,
            Data::Png(v) => v.len() as u64,
            Data::BeSigned(v) => v.len() as u64,
            Data::Bmp(v) => v.len() as u64,
        }
    }

    /// True where the length of the value is zero.
    pub fn is_empty(&self) -> (b: bool)
        ensures
            b == (self@.len() == 0),
    {
        self.len() == 0
    }

    /// True for `Reserved` and `BeSigned`.
    pub fn is_bytes(&self) -> (b: bool)
        ensures
            b == (self is Reserved || self is BeSigned),
    {
        matches!(self, Data::Reserved(_) | Data::BeSigned(_))
    }

    /// True for `Utf8` and `Utf16`.
    pub fn is_string(&self) -> (b: bool)
        ensures
            b == (self is Utf8 || self is Utf16),
    {
        matches!(self, Data::Utf8(_) | Data::Utf16(_))
    }

    /// True for `Jpeg`, `Png` and `Bmp`.
    pub fn is_image(&self) -> (b: bool)
        ensures
            b == (self is Jpeg || self is Png || self is Bmp),
    {
        matches!(self, Data::Jpeg(_) | Data::Png(_) | Data::Bmp(_))
    }

    /// True for `Reserved`.
    pub fn is_reserved(&self) -> (b: bool)
        ensures
            b == (self is Reserved),
    {
        matches!(self, Data::Reserved(_))
    }

    /// True for `Utf8`.
    pub fn is_utf8(&self) -> (b: bool)
        ensures
            b == (self is Utf8),
    {
        matches!(self, Data::Utf8(_))
    }

    /// True for `Utf16`.
    pub fn is_utf16(&self) -> (b: bool)
        ensures
            b == (self is Utf16),
    {
        matches!(self, Data::Utf16(_))
    }

    /// True for `Jpeg`.
    pub fn is_jpeg(&self) -> (b: bool)
        ensures
            b == (self is Jpeg),
    {
        matches!(self, Data::Jpeg(_))
    }

    /// True for `Png`.
    pub fn is_png(&self) -> (b: bool)
        ensures
            b == (self is Png),
    {
        matches!(self, Data::Png(_))
    }

    /// True for `BeSigned`.
    pub fn is_be_signed(&self) -> (b: bool)
        ensures
            b == (self is BeSigned),
    {
        matches!(self, Data::BeSigned(_))
    }

    /// True for `Bmp`.
    pub fn is_bmp(&self) -> (b: bool)
        ensures
            b == (self is Bmp),
    {
        matches!(self, Data::Bmp(_))
    }

    /// The bytes of a `Reserved` or `BeSigned` value.
    pub fn bytes(&self) -> (r: Option<&[u8]>)
        ensures
            match r {
                Some(b) => self@.bytes() == Some(b@),
                None => self@.bytes() is None,
            },
    {
        match self {
            Data::Reserved(v) => Some(v.as_slice()),
            Data::BeSigned(v) => Some(v.as_slice()),
            _ => None,
        }
    }

    /// The bytes of a `Reserved` or `BeSigned` value, to be changed in place.
    /// The value keeps its kind and holds whatever the bytes are left as.
    pub fn bytes_mut(&mut self) -> (r: Option<&mut Vec<u8>>)
        ensures
            match r {
                Some(v) => {
                    &&& old(self)@.bytes() == Some(v@)
                    &&& *old(self) is Reserved ==> *final(self) == Data::Reserved(*final(v))
                    &&& *old(self) is BeSigned ==> *final(self) == Data::BeSigned(*final(v))
                },
                None => old(self)@.bytes() is None && *final(self) == *old(self),
            },
    {
        match self {
            Data::Reserved(v) => Some(v),
            Data::BeSigned(v) => Some(v),
            _ => None,
        }
    }

    /// Gives up the value for the bytes of a `Reserved` or `BeSigned` value.
    pub fn into_bytes(self) -> (r: Option<Vec<u8>>)
        ensures
            match r {
                Some(b) => self@.bytes() == Some(b@),
                None => self@.bytes() is None,
            },
    {
        match self {
            Data::Reserved(v) => Some(v),
            Data::BeSigned(v) => Some(v),
            _ => None,
        }
    }

    /// The text of a `Utf8` or `Utf16` value.
    pub fn string(&self) -> (r: Option<&str>)
        ensures
            match r {
                Some(s) => self@.string() == Some(s@),
                None => self@.string() is None,
            },
    {
        match self {
            Data::Utf8(s) => Some(s.as_str()),
            Data::Utf16(s) => Some(s.as_str()),
            _ => None,
        }
    }

    /// The text of a `Utf8` or `Utf16` value, to be changed in place. The
    /// value keeps its kind and holds whatever the text is left as.
    pub fn string_mut(&mut self) -> (r: Option<&mut String>)
        ensures
            match r {
                Some(s) => {
                    &&& old(self)@.string() == Some(s@)
                    &&& *old(self) is Utf8 ==> *final(self) == Data::Utf8(*final(s))
                    &&& *old(self) is Utf16 ==> *final(self) == Data::Utf16(*final(s))
                },
                None => old(self)@.string() is None && *final(self) == *old(self),
            },
    {
        match self {
            Data::Utf8(s) => Some(s),
            Data::Utf16(s) => Some(s),
            _ => None,
        }
    }

    /// Gives up the value for the text of a `Utf8` or `Utf16` value.
    pub fn into_string(self) -> (r: Option<String>)
        ensures
            match r {
                Some(s) => self@.string() == Some(s@),
                None => self@.string() is None,
            },
    {
        match self {
            Data::Utf8(s) => Some(s),
            Data::Utf16(s) => Some(s),
            _ => None,
        }
    }

    /// The image of a `Jpeg`, `Png` or `Bmp` value: its format and bytes.
    pub fn image(&self) -> (r: Option<ImgRef<'_>>)
        ensures
            match r {
                Some(img) => self@.image() == Some((img.fmt, img.data@)),
                None => self@.image() is None,
            },
    {
        match self {
            Data::Jpeg(v) => Some(Img::new(ImgFmt::Jpeg, v.as_slice())),
            Data::Png(v) => Some(Img::new(ImgFmt::Png, v.as_slice())),
            Data::Bmp(v) => Some(Img::new(ImgFmt::Bmp, v.as_slice())),
            _ => None,
        }
    }

    /// The image of a `Jpeg`, `Png` or `Bmp` value, its bytes to be changed in
    /// place. The value keeps its kind and holds whatever the bytes are left
    /// as.
    pub fn image_mut(&mut self) -> (r: Option<ImgMut<'_>>)
        ensures
            match r {
                Some(img) => {
                    &&& old(self)@.image() == Some((img.fmt, img.data@))
                    &&& *old(self) is Jpeg ==> *final(self) == Data::Jpeg(*final(img.data))
                    &&& *old(self) is Png ==> *final(self) == Data::Png(*final(img.data))
                    &&& *old(self) is Bmp ==> *final(self) == Data::Bmp(*final(img.data))
                },
                None => old(self)@.image() is None && *final(self) == *old(self),
            },
    {
        match self {
            Data::Jpeg(v) => Some(Img::new(ImgFmt::Jpeg, v)),
            Data::Png(v) => Some(Img::new(ImgFmt::Png, v)),
            Data::Bmp(v) => Some(Img::new(ImgFmt::Bmp, v)),
            _ => None,
        }
    }

    /// Gives up the value for the image of a `Jpeg`, `Png` or `Bmp` value.
    pub fn into_image(self) -> (r: Option<ImgBuf>)
        ensures
            match r {
                Some(img) => self@.image() == Some((img.fmt, img.data@)),
                None => self@.image() is None,
            },
    {
        match self {
            Data::Jpeg(v) => Some(Img::new(ImgFmt::Jpeg, v)),
            Data::Png(v) => Some(Img::new(ImgFmt::Png, v)),
            Data::Bmp(v) => Some(Img::new(ImgFmt::Bmp, v)),
            _ => None,
        }
    }

    /// The bytes of a `Jpeg`, `Png` or `Bmp` value.
    pub fn image_data(&self) -> (r: Option<&[u8]>)
        ensures
            match r {
                Some(b) => self@.image() matches Some(img) && img.1 == b@,
                None => self@.image() is None,
            },
    {
        match self.image() {
            Some(img) => Some(img.data),
            None => None,
        }
    }

    /// The bytes of a `Jpeg`, `Png` or `Bmp` value, to be changed in place.
    /// The value keeps its kind and holds whatever the bytes are left as.
    pub fn image_data_mut(&mut self) -> (r: Option<&mut Vec<u8>>)
        ensures
            match r {
                Some(v) => {
                    &&& old(self)@.image() matches Some(img) && img.1 == v@
                    &&& *old(self) is Jpeg ==> *final(self) == Data::Jpeg(*final(v))
                    &&& *old(self) is Png ==> *final(self) == Data::Png(*final(v))
                    &&& *old(self) is Bmp ==> *final(self) == Data::Bmp(*final(v))
                },
                None => old(self)@.image() is None && *final(self) == *old(self),
            },
    {
        match self.image_mut() {
            Some(img) => Some(img.data),
            None => None,
        }
    }

    /// Gives up the value for the bytes of a `Jpeg`, `Png` or `Bmp` value.
    pub fn into_image_data(self) -> (r: Option<Vec<u8>>)
        ensures
            match r {
                Some(b) => self@.image() matches Some(img) && img.1 == b@,
                None => self@.image() is None,
            },
    {
        match self.into_image() {
            Some(img) => Some(img.data),
            None => None,
        }
    }

    /// The bytes of a `Reserved` value.
    pub fn reserved(&self) -> (r: Option<&[u8]>)
        ensures
            match r {
                Some(b) => self@ == DataView::Reserved(b@),
                None => !(self is Reserved),
            },
    {
        match self {
            Data::Reserved(v) => Some(v.as_slice()),
            _ => None,
        }
    }

    /// The text of a `Utf8` value.
    pub fn utf8(&self) -> (r: Option<&str>)
        ensures
            match r {
                Some(s) => self@ == DataView::Utf8(s@),
                None => !(self is Utf8),
            },
    {
        match self {
            Data::Utf8(s) => Some(s.as_str()),
            _ => None,
        }
    }

    /// The text of a `Utf16` value.
    pub fn utf16(&self) -> (r: Option<&str>)
        ensures
            match r {
                Some(s) => self@ == DataView::Utf16(s@),
                None => !(self is Utf16),
            },
    {
        match self {
            Data::Utf16(s) => Some(s.as_str()),
            _ => None,
        }
    }

    /// The bytes of a `Jpeg` value.
    pub fn jpeg(&self) -> (r: Option<&[u8]>)
        ensures
            match r {
                Some(b) => self@ == DataView::Jpeg(b@),
                None => !(self is Jpeg),
            },
    {
        match self {
            Data::Jpeg(v) => Some(v.as_slice()),
            _ => None,
        }
    }

    /// The bytes of a `Png` value.
    pub fn png(&self) -> (r: Option<&[u8]>)
        ensures
            match r {
                Some(b) => self@ == DataView::Png(b@),
                None => !(self is Png),
            },
    {
        match self {
            Data::Png(v) => Some(v.as_slice()),
            _ => None,
        }
    }

    /// The bytes of a `BeSigned` value.
    pub fn be_signed(&self) -> (r: Option<&[u8]>)
        ensures
            match r {
                Some(b) => self@ == DataView::BeSigned(b@),
                None => !(self is BeSigned),
            },
    {
        match self {
            Data::BeSigned(v) => Some(v.as_slice()),
            _ => None,
        }
    }

    /// The bytes of a `Bmp` value.
    pub fn bmp(&self) -> (r: Option<&[u8]>)
        ensures
            match r {
                Some(b) => self@ == DataView::Bmp(b@),
                None => !(self is Bmp),
            },
    {
        match self {
            Data::Bmp(v) => Some(v.as_slice()),
            _ => None,
        }
    }
}

} // verus!
