//! The values that the bus tool reads and writes: bytes of an object shown as text, and text
//! written as the bytes of an object.
use vstd::prelude::*;
use vstd::string::StringExecFns;
use vstd::string::StringSliceAdditionalSpecFns;
use crate::command::{maybe_hex_message, maybe_hex_u16, maybe_hex_u32, maybe_hex_u8, SdoDataType};
use crate::le_bytes::{le_u16, le_u32, u16_from_le, u16_le, u16_to_le, u32_from_le, u32_le, u32_to_le};
use crate::text::{decimal, decimal_text, maybe_hex_number, parse_signed};

verus! {

/// The bytes read do not have the size of the data type.
#[derive(Clone, Copy, Debug, PartialEq, Eq, Structural)]
pub struct MismatchedSizeError {}

/// Names the text that `String::from_utf8_lossy` makes of bytes.
pub uninterp spec fn utf8_lossy(bytes: Seq<u8>) -> Seq<char>;

/// Calls `String::from_utf8_lossy`: the text of UTF-8 bytes, with each invalid sequence
/// replaced by U+FFFD. Valid UTF-8 is decoded as it is.
#[verifier::external_body]
pub(crate) fn lossy_text(bytes: &[u8]) -> (r: String)
    ensures
        r@ == utf8_lossy(bytes@),
        vstd::utf8::valid_utf8(bytes@) ==> r@ == vstd::utf8::decode_utf8(bytes@),
{
    String::from_utf8_lossy(bytes).into_owned()
}

/// Names the message of the error of `i32::from_str` for a text it refuses.
pub uninterp spec fn i32_parse_message(s: Seq<char>) -> Seq<char>;

/// Names the message of the error of `i16::from_str` for a text it refuses.
pub uninterp spec fn i16_parse_message(s: Seq<char>) -> Seq<char>;

/// Names the message of the error of `i8::from_str` for a text it refuses.
pub uninterp spec fn i8_parse_message(s: Seq<char>) -> Seq<char>;

/// Calls `str::parse::<i32>`: an optional `+` or `-` and decimal digits, in the range of `i32`;
/// a refusal is turned into its message.
#[verifier::external_body]
fn parse_i32(s: &str) -> (r: Result<i32, String>)
    ensures
        match r {
            Ok(v) => parse_signed(s@, i32::MIN as int, i32::MAX as int) == Some(v as int),
            Err(e) => parse_signed(s@, i32::MIN as int, i32::MAX as int) is None && e@ == i32_parse_message(s@),
        },
{
    s.parse::<i32>().map_err(|e| e.to_string())
}

/// Calls `str::parse::<i16>`, as `parse_i32` does for `i32`.
#[verifier::external_body]
fn parse_i16(s: &str) -> (r: Result<i16, String>)
    ensures
        match r {
            Ok(v) => parse_signed(s@, i16::MIN as int, i16::MAX as int) == Some(v as int),
            Err(e) => parse_signed(s@, i16::MIN as int, i16::MAX as int) is None && e@ == i16_parse_message(s@),
        },
{
    s.parse::<i16>().map_err(|e| e.to_string())
}

/// Calls `str::parse::<i8>`, as `parse_i32` does for `i32`.
#[verifier::external_body]
fn parse_i8(s: &str) -> (r: Result<i8, String>)
    ensures
        match r {
            Ok(v) => parse_signed(s@, i8::MIN as int, i8::MAX as int) == Some(v as int),
            Err(e) => parse_signed(s@, i8::MIN as int, i8::MAX as int) is None && e@ == i8_parse_message(s@),
        },
{
    s.parse::<i8>().map_err(|e| e.to_string())
}

/// The decimal text of a signed number: a `-` before the digits of a negative one.
pub open spec fn signed_text(v: int) -> Seq<char> {
    if v < 0 {
        seq!['-'] + decimal_text((-v) as nat)
    } else {
        decimal_text(v as nat)
    }
}

/// Returns the decimal text of a signed 32-bit number.
pub fn signed_decimal(v: i32) -> (r: String)
    ensures
        r@ == signed_text(v as int),
{
    if v < 0 {
        let magnitude: u32 = if v == i32::MIN {
            0x8000_0000
        } else {
            (-v) as u32
        };
        let mut s = String::from_str("-");
        proof {
            reveal_strlit("-");
        }
        let digits = decimal(magnitude as usize);
        s.append(digits.as_str());
        s
    } else {
        decimal(v as usize)
    }
}

/// The text shown for the bytes of an object of a data type other than F32: U32, U16, I32 and
/// I16 take exactly their size; U8 and I8 take the first byte of one or more; UTF-8 text is
/// decoded with invalid sequences replaced.
pub open spec fn spec_read_text(data_type: SdoDataType, b: Seq<u8>) -> Option<Seq<char>> {
    match data_type {
        SdoDataType::U32 => if b.len() == 4 {
            Some(decimal_text(le_u32(b[0], b[1], b[2], b[3]) as nat))
        } else {
            None
        },
        SdoDataType::U16 => if b.len() == 2 {
            Some(decimal_text(le_u16(b[0], b[1]) as nat))
        } else {
            None
        },
        SdoDataType::U8 => if b.len() > 0 {
            Some(decimal_text(b[0] as nat))
        } else {
            None
        },
        SdoDataType::I32 => if b.len() == 4 {
            Some(signed_text(le_u32(b[0], b[1], b[2], b[3]) as i32 as int))
        } else {
            None
        },
        SdoDataType::I16 => if b.len() == 2 {
            Some(signed_text(le_u16(b[0], b[1]) as i16 as int))
        } else {
            None
        },
        SdoDataType::I8 => if b.len() > 0 {
            Some(signed_text(b[0] as i8 as int))
        } else {
            None
        },
        SdoDataType::Utf8 => Some(utf8_lossy(b)),
        SdoDataType::F32 => None,
    }
}

/// Returns the text shown for the bytes of an object of a data type other than F32, or
/// `MismatchedSizeError` when the bytes do not fit the type.
pub fn convert_read_bytes_to_string(data_type: SdoDataType, bytes: &[u8]) -> (r: Result<String, MismatchedSizeError>)
    requires
        data_type != SdoDataType::F32,
    ensures
        match spec_read_text(data_type, bytes@) {
            Some(t) => r matches Ok(s) && s@ == t,
            None => r is Err,
        },
{
    match data_type {
        SdoDataType::U32 => {
            if bytes.len() != 4 {
                return Err(MismatchedSizeError {});
            }
            Ok(decimal(u32_from_le(bytes[0], bytes[1], bytes[2], bytes[3]) as usize))
        },
        SdoDataType::U16 => {
            if bytes.len() != 2 {
                return Err(MismatchedSizeError {});
            }
            Ok(decimal(u16_from_le(bytes[0], bytes[1]) as usize))
        },
        SdoDataType::U8 => {
            if bytes.len() == 0 {
                return Err(MismatchedSizeError {});
            }
            Ok(decimal(bytes[0] as usize))
        },
        SdoDataType::I32 => {
            if bytes.len() != 4 {
                return Err(MismatchedSizeError {});
            }
            Ok(signed_decimal(u32_from_le(bytes[0], bytes[1], bytes[2], bytes[3]) as i32))
        },
        SdoDataType::I16 => {
            if bytes.len() != 2 {
                return Err(MismatchedSizeError {});
            }
            Ok(signed_decimal(u16_from_le(bytes[0], bytes[1]) as i16 as i32))
        },
        SdoDataType::I8 => {
            if bytes.len() == 0 {
                return Err(MismatchedSizeError {});
            }
            Ok(signed_decimal(bytes[0] as i8 as i32))
        },
        SdoDataType::Utf8 => Ok(lossy_text(bytes)),
        SdoDataType::F32 => Err(MismatchedSizeError {}),
    }
}

/// The bytes written for a value text of a data type other than F32: U32, U16 and U8 in
/// decimal or `0x` hexadecimal, I32, I16 and I8 in decimal with an optional sign, each as its
/// little-endian bytes; UTF-8 text as its bytes. None when the text is not a value of the type.
pub open spec fn spec_write_bytes(data_type: SdoDataType, s: &str) -> Option<Seq<u8>> {
    match data_type {
        SdoDataType::U32 => match maybe_hex_number(s@, 0xffff_ffff) {
            Some(v) => Some(u32_le(v as u32)),
            None => None,
        },
        SdoDataType::U16 => match maybe_hex_number(s@, 0xffff) {
            Some(v) => Some(u16_le(v as u16)),
            None => None,
        },
        SdoDataType::U8 => match maybe_hex_number(s@, 0xff) {
            Some(v) => Some(seq![v as u8]),
            None => None,
        },
        SdoDataType::I32 => match parse_signed(s@, i32::MIN as int, i32::MAX as int) {
            Some(v) => Some(u32_le(v as i32 as u32)),
            None => None,
        },
        SdoDataType::I16 => match parse_signed(s@, i16::MIN as int, i16::MAX as int) {
            Some(v) => Some(u16_le(v as i16 as u16)),
            None => None,
        },
        SdoDataType::I8 => match parse_signed(s@, i8::MIN as int, i8::MAX as int) {
            Some(v) => Some(seq![v as i8 as u8]),
            None => None,
        },
        SdoDataType::Utf8 => Some(s.spec_bytes()),
        SdoDataType::F32 => None,
    }
}

/// The message for a value text refused for a data type.
pub open spec fn spec_write_message(data_type: SdoDataType, s: Seq<char>) -> Seq<char> {
    match data_type {
        SdoDataType::U32 => maybe_hex_message(s, 0xffff_ffff),
        SdoDataType::U16 => maybe_hex_message(s, 0xffff),
        SdoDataType::U8 => maybe_hex_message(s, 0xff),
        SdoDataType::I32 => i32_parse_message(s),
        SdoDataType::I16 => i16_parse_message(s),
        SdoDataType::I8 => i8_parse_message(s),
        _ => Seq::empty(),
    }
}

/// Returns the bytes written for a value text of a data type other than F32, or the message of
/// the refusal.
pub fn convert_write_value_to_bytes(data_type: SdoDataType, value: &str) -> (r: Result<Vec<u8>, String>)
    requires
        data_type != SdoDataType::F32,
    ensures
        match spec_write_bytes(data_type, value) {
            Some(b) => r matches Ok(v) && v@ == b,
            None => r matches Err(m) && m@ == spec_write_message(data_type, value@),
        },
{
    match data_type {
        SdoDataType::U32 => match maybe_hex_u32(value) {
            Ok(num) => Ok(vstd::slice::slice_to_vec(&u32_to_le(num))),
            Err(e) => Err(e),
        },
        SdoDataType::U16 => match maybe_hex_u16(value) {
            Ok(num) => Ok(vstd::slice::slice_to_vec(&u16_to_le(num))),
            Err(e) => Err(e),
        },
        SdoDataType::U8 => match maybe_hex_u8(value) {
            Ok(num) => {
                let v = vec![num];
                assert(v@ =~= seq![num]);
                Ok(v)
            },
            Err(e) => Err(e),
        },
        SdoDataType::I32 => match parse_i32(value) {
            Ok(num) => Ok(vstd::slice::slice_to_vec(&u32_to_le(num as u32))),
            Err(e) => Err(e),
        },
        SdoDataType::I16 => match parse_i16(value) {
            Ok(num) => Ok(vstd::slice::slice_to_vec(&u16_to_le(num as u16))),
            Err(e) => Err(e),
        },
        SdoDataType::I8 => match parse_i8(value) {
            Ok(num) => {
                let v = vec![num as u8];
                assert(v@ =~= seq![num as u8]);
                Ok(v)
            },
            Err(e) => Err(e),
        },
        SdoDataType::Utf8 => Ok(vstd::slice::slice_to_vec(value.as_bytes())),
        SdoDataType::F32 => Err(String::new()),
    }
}

/// The value of two bytes, the first the lowest.
pub open spec fn little_endian2(b0: u8, b1: u8) -> int {
    b0 + 256 * b1
}

/// The value of four bytes, the first the lowest.
pub open spec fn little_endian4(b0: u8, b1: u8, b2: u8, b3: u8) -> int {
    b0 + 256 * b1 + 65536 * b2 + 16777216 * b3
}

proof fn lemma_u16_as_i16(x: u16)
    ensures
        (x as i16) as int == if x >= 0x8000 { x - 0x10000 } else { x as int },
{
    assert((x >= 0x8000 ==> (x as i16) as int == x - 0x10000) && (x < 0x8000 ==> (x as i16) as int == x))
        by (bit_vector);
}

proof fn lemma_u32_as_i32(x: u32)
    ensures
        (x as i32) as int == if x >= 0x8000_0000 { x - 0x1_0000_0000 } else { x as int },
{
    assert((x >= 0x8000_0000 ==> (x as i32) as int == x - 0x1_0000_0000) && (x < 0x8000_0000 ==> (x as i32) as int == x))
        by (bit_vector);
}

proof fn lemma_u8_as_i8(x: u8)
    ensures
        (x as i8) as int == if x >= 0x80 { x - 0x100 } else { x as int },
{
    assert((x >= 0x80 ==> (x as i8) as int == x - 0x100) && (x < 0x80 ==> (x as i8) as int == x))
        by (bit_vector);
}

/// Bytes read from an object are shown as the little-endian number they hold, the first byte
/// the lowest: U16 and U32 as unsigned decimals of two and four bytes, I16 and I32 as the two's
/// complement of the same, U8 and I8 as the first byte, unsigned or two's complement.
pub proof fn lemma_read_text_little_endian(b: Seq<u8>)
    ensures
        b.len() == 2 ==> spec_read_text(SdoDataType::U16, b) == Some(decimal_text(little_endian2(b[0], b[1]) as nat)),
        b.len() == 4 ==> spec_read_text(SdoDataType::U32, b) == Some(
            decimal_text(little_endian4(b[0], b[1], b[2], b[3]) as nat),
        ),
        b.len() == 2 ==> spec_read_text(SdoDataType::I16, b) == Some(
            signed_text(if little_endian2(b[0], b[1]) >= 0x8000 {
                little_endian2(b[0], b[1]) - 0x10000
            } else {
                little_endian2(b[0], b[1])
            }),
        ),
        b.len() == 4 ==> spec_read_text(SdoDataType::I32, b) == Some(
            signed_text(if little_endian4(b[0], b[1], b[2], b[3]) >= 0x8000_0000 {
                little_endian4(b[0], b[1], b[2], b[3]) - 0x1_0000_0000
            } else {
                little_endian4(b[0], b[1], b[2], b[3])
            }),
        ),
        b.len() >= 1 ==> spec_read_text(SdoDataType::U8, b) == Some(decimal_text(b[0] as nat)),
        b.len() >= 1 ==> spec_read_text(SdoDataType::I8, b) == Some(
            signed_text(if b[0] >= 0x80 { b[0] - 0x100 } else { b[0] as int }),
        ),
{
    if b.len() == 2 {
        lemma_u16_as_i16(le_u16(b[0], b[1]));
    }
    if b.len() == 4 {
        lemma_u32_as_i32(le_u32(b[0], b[1], b[2], b[3]));
    }
    if b.len() >= 1 {
        lemma_u8_as_i8(b[0]);
    }
}

/// A value written to an object goes out as its little-endian bytes, the lowest first: U16
/// and U32 as the number they are read as, I16, I32 and I8 in two's complement.
pub proof fn lemma_write_bytes_little_endian(s: &str)
    ensures
        spec_write_bytes(SdoDataType::U16, s) matches Some(b) ==> b.len() == 2 && maybe_hex_number(s@, 0xffff)
            == Some(little_endian2(b[0], b[1]) as nat),
        spec_write_bytes(SdoDataType::U32, s) matches Some(b) ==> b.len() == 4 && maybe_hex_number(s@, 0xffff_ffff)
            == Some(little_endian4(b[0], b[1], b[2], b[3]) as nat),
        spec_write_bytes(SdoDataType::U8, s) matches Some(b) ==> b.len() == 1 && maybe_hex_number(s@, 0xff) == Some(
            b[0] as nat,
        ),
        spec_write_bytes(SdoDataType::I16, s) matches Some(b) ==> b.len() == 2 && parse_signed(s@, -0x8000, 0x7fff)
            == Some(
            if little_endian2(b[0], b[1]) >= 0x8000 {
                little_endian2(b[0], b[1]) - 0x10000
            } else {
                little_endian2(b[0], b[1])
            },
        ),
        spec_write_bytes(SdoDataType::I32, s) matches Some(b) ==> b.len() == 4 && parse_signed(
            s@,
            -0x8000_0000,
            0x7fff_ffff,
        ) == Some(
            if little_endian4(b[0], b[1], b[2], b[3]) >= 0x8000_0000 {
                little_endian4(b[0], b[1], b[2], b[3]) - 0x1_0000_0000
            } else {
                little_endian4(b[0], b[1], b[2], b[3])
            },
        ),
        spec_write_bytes(SdoDataType::I8, s) matches Some(b) ==> b.len() == 1 && parse_signed(s@, -0x80, 0x7f) == Some(
            if b[0] >= 0x80 { b[0] - 0x100 } else { b[0] as int },
        ),
{
    match maybe_hex_number(s@, 0xffff) {
        Some(v) => {
            crate::le_bytes::lemma_u16_le_roundtrip(v as u16);
        },
        None => {},
    }
    match maybe_hex_number(s@, 0xffff_ffff) {
        Some(v) => {
            crate::le_bytes::lemma_u32_le_roundtrip(v as u32);
        },
        None => {},
    }
    match parse_signed(s@, i16::MIN as int, i16::MAX as int) {
        Some(v) => {
            let y = v as i16;
            let x = y as u16;
            assert((y as u16) as i16 == y) by (bit_vector);
            assert(y as int == v);
            crate::le_bytes::lemma_u16_le_roundtrip(x);
            lemma_u16_as_i16(x);
        },
        None => {},
    }
    match parse_signed(s@, i32::MIN as int, i32::MAX as int) {
        Some(v) => {
            let y = v as i32;
            let x = y as u32;
            assert((y as u32) as i32 == y) by (bit_vector);
            assert(y as int == v);
            crate::le_bytes::lemma_u32_le_roundtrip(x);
            lemma_u32_as_i32(x);
        },
        None => {},
    }
    match parse_signed(s@, i8::MIN as int, i8::MAX as int) {
        Some(v) => {
            let y = v as i8;
            assert((y as u8) as i8 == y) by (bit_vector);
            assert(y as int == v);
            lemma_u8_as_i8(y as u8);
        },
        None => {},
    }
}

} // verus!
