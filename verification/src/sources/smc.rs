//! Keys and values of the system management controller: four-character codes and
//! the fixed-point formats of its sensors.

use vstd::prelude::*;
use vstd::string::StringSliceAdditionalSpecFns;
use vstd::utf8::{decode_utf8, decode_utf8_encode_utf8, encode_utf8, valid_utf8};

verus! {

/// The number of bytes that the controller returns for a key.
pub const SMC_VALUE_LEN: usize = 32;

/// The code of a key: its four bytes as one big-endian number. A key that is not
/// four bytes long has the code zero.
pub open spec fn fourcc_of(bytes: Seq<u8>) -> u32 {
    if bytes.len() == 4 {
        (bytes[0] * 0x100_0000 + bytes[1] * 0x1_0000 + bytes[2] * 0x100 + bytes[3]) as u32
    } else {
        0
    }
}

/// The four bytes of a code, most significant first.
pub open spec fn fourcc_bytes(code: u32) -> Seq<u8> {
    seq![
        (code / 0x100_0000) as u8,
        (code / 0x1_0000 % 0x100) as u8,
        (code / 0x100 % 0x100) as u8,
        (code % 0x100) as u8,
    ]
}

/// Encodes a key as its code.
pub fn fourcc(s: &str) -> (code: u32)
    ensures
        code == fourcc_of(s.spec_bytes()),
{
    let bytes = s.as_bytes();
    if bytes.len() != 4 {
        return 0;
    }
    let b0: u32 = bytes[0] as u32;
    let b1: u32 = bytes[1] as u32;
    let b2: u32 = bytes[2] as u32;
    let b3: u32 = bytes[3] as u32;
    assert((b0 << 24) | (b1 << 16) | (b2 << 8) | b3 == b0 * 0x100_0000 + b1 * 0x1_0000 + b2 * 0x100
        + b3) by (bit_vector)
        requires
            b0 < 256,
            b1 < 256,
            b2 < 256,
            b3 < 256,
    ;
    (b0 << 24) | (b1 << 16) | (b2 << 8) | b3
}

/// The text that `String::from_utf8_lossy` of std makes of bytes: what they encode,
/// with U+FFFD in place of each maximal part that is not UTF-8, so that one run of bad
/// bytes may give several of them.
pub uninterp spec fn utf8_lossy(bytes: Seq<u8>) -> Seq<char>;

/// `String::from_utf8_lossy` of std, as an owned string. The text depends on the bytes
/// alone, and bytes that are UTF-8 give the text that they encode.
#[verifier::external_body]
fn lossy_text(bytes: &[u8]) -> (text: String)
    ensures
        text@ == utf8_lossy(bytes@),
        valid_utf8(bytes@) ==> text@ == decode_utf8(bytes@),
{
    String::from_utf8_lossy(bytes).into_owned()
}

/// Decodes a code as the text of its key.
pub fn fourcc_to_str(val: u32) -> (text: String)
    ensures
        text@ == utf8_lossy(fourcc_bytes(val)),
        valid_utf8(fourcc_bytes(val)) ==> text@ == decode_utf8(fourcc_bytes(val)),
{
    let bytes: [u8; 4] = [
        ((val >> 24) & 0xFF) as u8,
        ((val >> 16) & 0xFF) as u8,
        ((val >> 8) & 0xFF) as u8,
        (val & 0xFF) as u8,
    ];
    proof {
        assert((val >> 24) & 0xFF == val / 0x100_0000) by (bit_vector);
        assert((val >> 16) & 0xFF == val / 0x1_0000 % 0x100) by (bit_vector);
        assert((val >> 8) & 0xFF == val / 0x100 % 0x100) by (bit_vector);
        assert(val & 0xFF == val % 0x100) by (bit_vector);
        assert(bytes@ =~= fourcc_bytes(val));
    }
    lossy_text(bytes.as_slice())
}

/// The code of the four bytes of a code is that code.
pub proof fn lemma_code_of_bytes(code: u32)
    ensures
        fourcc_of(fourcc_bytes(code)) == code,
{
    let bytes = fourcc_bytes(code);
    assert(bytes.len() == 4);
    assert(bytes[0] == code / 0x100_0000);
    assert(bytes[1] == code / 0x1_0000 % 0x100);
    assert(bytes[2] == code / 0x100 % 0x100);
    assert(bytes[3] == code % 0x100);
}

/// A code whose four bytes are text names its key: the text of the code has the code
/// again.
pub proof fn lemma_fourcc_round_trip(code: u32, text: Seq<char>)
    requires
        valid_utf8(fourcc_bytes(code)),
        text == decode_utf8(fourcc_bytes(code)),
    ensures
        fourcc_of(encode_utf8(text)) == code,
{
    decode_utf8_encode_utf8(fourcc_bytes(code));
    lemma_code_of_bytes(code);
}

/// A temperature in 1/256 of a degree: the first two bytes as a signed big-endian
/// number with eight fractional bits.
pub open spec fn temp_of(bytes: Seq<u8>) -> int
    recommends
        bytes.len() >= 2,
{
    let raw = bytes[0] * 0x100 + bytes[1];
    if raw >= 0x8000 {
        raw - 0x1_0000
    } else {
        raw
    }
}

/// Decodes a temperature sensor's value, in 1/256 of a degree.
pub fn decode_temp(bytes: &[u8; SMC_VALUE_LEN]) -> (temp: i16)
    ensures
        temp == temp_of(bytes@),
{
    let raw: i32 = (bytes[0] as i32) * 0x100 + (bytes[1] as i32);
    if raw >= 0x8000 {
        (raw - 0x1_0000) as i16
    } else {
        raw as i16
    }
}

/// A fan speed in quarters of a revolution per minute: the first two bytes as an
/// unsigned big-endian number with two fractional bits.
pub open spec fn fan_speed_of(bytes: Seq<u8>) -> int
    recommends
        bytes.len() >= 2,
{
    bytes[0] * 0x100 + bytes[1]
}

/// Decodes a fan's speed, in quarters of a revolution per minute.
pub fn decode_fan_speed(bytes: &[u8; SMC_VALUE_LEN]) -> (speed: u16)
    ensures
        speed == fan_speed_of(bytes@),
{
    (bytes[0] as u16) * 0x100 + (bytes[1] as u16)
}

/// The first four bytes as one little-endian number: the bit pattern of a power value.
pub open spec fn power_bits_of(bytes: Seq<u8>) -> int
    recommends
        bytes.len() >= 4,
{
    bytes[0] + bytes[1] * 0x100 + bytes[2] * 0x1_0000 + bytes[3] * 0x100_0000
}

/// Decodes a power sensor's value as the bit pattern of a 32-bit float.
///
/// Four zero bytes mean that the sensor gave no value.
pub fn decode_power_bits(bytes: &[u8; SMC_VALUE_LEN]) -> (bits: Option<u32>)
    ensures
        power_bits_of(bytes@) == 0 <==> bits is None,
        bits is Some ==> bits->Some_0 == power_bits_of(bytes@),
{
    let value: u32 = (bytes[0] as u32) + (bytes[1] as u32) * 0x100 + (bytes[2] as u32) * 0x1_0000
        + (bytes[3] as u32) * 0x100_0000;
    if value == 0 {
        None
    } else {
        Some(value)
    }
}

} // verus!
