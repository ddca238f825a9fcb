//! The chip's fixed-point temperature format: a signed integer part and a
//! half-degree flag, with 0.5-degree resolution.
use vstd::prelude::*;

verus! {

/// A temperature with 0.5-degree resolution: `whole` degrees Celsius, plus
/// an extra half degree when `half` is set. This is exactly what the chip
/// stores; conversion to and from other representations happens at the
/// boundary of the library.
#[derive(Debug, Clone, Copy, PartialEq, Eq, Structural)]
pub struct Temperature {
    /// The signed integer part, in degrees Celsius.
    pub whole: i8,
    /// Whether an extra 0.5 degrees is added to the integer part.
    pub half: bool,
}

/// The wire encoding of a signed integer part: its two's-complement byte.
pub open spec fn spec_byte_of_i8(x: i8) -> u8 {
    if x >= 0 {
        x as u8
    } else {
        (x + 256) as u8
    }
}

/// The signed integer part a wire byte denotes: the byte read as two's
/// complement.
pub open spec fn spec_i8_of_byte(b: u8) -> i8 {
    if b < 128 {
        b as i8
    } else {
        (b - 256) as i8
    }
}

/// The temperature denoted by the two bytes of a temperature-register
/// read: the first byte is the signed integer part, a nonzero second byte
/// adds half a degree.
pub open spec fn spec_decode_temperature(b0: u8, b1: u8) -> Temperature {
    Temperature { whole: spec_i8_of_byte(b0), half: b1 != 0 }
}

/// The half-degree flag byte of the threshold wire format.
pub open spec fn spec_half_flag(half: bool) -> u8 {
    if half {
        0x80
    } else {
        0x00
    }
}

/// The three bytes of a threshold write: the register opcode, the signed
/// integer part, and the half-degree flag byte.
pub open spec fn spec_threshold_bytes(reg: u8, t: Temperature) -> Seq<u8> {
    seq![reg, spec_byte_of_i8(t.whole), spec_half_flag(t.half)]
}

/// Encode a signed integer part as its wire byte.
pub fn byte_of_i8(x: i8) -> (b: u8)
    ensures
        b == spec_byte_of_i8(x),
{
    if x >= 0 {
        x as u8
    } else {
        ((x as i16) + 256) as u8
    }
}

/// Decode a wire byte as a signed integer part.
pub fn i8_of_byte(b: u8) -> (x: i8)
    ensures
        x == spec_i8_of_byte(b),
{
    if b < 128 {
        b as i8
    } else {
        ((b as i16) - 256) as i8
    }
}

/// Decode the two bytes of a temperature-register read.
pub fn decode_temperature(b0: u8, b1: u8) -> (t: Temperature)
    ensures
        t == spec_decode_temperature(b0, b1),
{
    Temperature { whole: i8_of_byte(b0), half: b1 != 0 }
}

/// Build the three bytes of a threshold write for register opcode `reg`.
pub fn encode_threshold(reg: u8, t: Temperature) -> (bytes: Vec<u8>)
    ensures
        bytes@ == spec_threshold_bytes(reg, t),
{
    let mut bytes: Vec<u8> = Vec::new();
    bytes.push(reg);
    bytes.push(byte_of_i8(t.whole));
    bytes.push(if t.half {
        0x80
    } else {
        0x00
    });
    proof {
        assert(bytes@ =~= spec_threshold_bytes(reg, t));
    }
    bytes
}

/// The wire byte of an integer part decodes back to that integer part.
pub proof fn lemma_i8_byte_round_trip(x: i8)
    ensures
        spec_i8_of_byte(spec_byte_of_i8(x)) == x,
{
}

/// Law: a threshold encoding decodes back to the temperature it was built
/// from — the payload bytes written for `t` denote exactly `t` under the
/// temperature-register decoding.
pub proof fn lemma_threshold_round_trip(reg: u8, t: Temperature)
    ensures
        spec_decode_temperature(
            spec_threshold_bytes(reg, t)[1],
            spec_threshold_bytes(reg, t)[2],
        ) == t,
{
    lemma_i8_byte_round_trip(t.whole);
}

} // verus!
