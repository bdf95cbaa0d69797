//! The layout of a packet: which bytes hold which field, and how the
//! keystream lies over them.
//!
//! A payload has 18 bytes. Byte 0 is the length marker, byte 2 repeats the
//! low seven bits of the sequence number in the clear, and bytes 3 to 17
//! hold the fields, masked: the keystream starts at byte 3 and repeats every
//! five bytes. Fields of more than one byte are big-endian.

use vstd::prelude::*;
use crate::packet::SparsnasPacket;

verus! {

/// What byte 0 of every payload holds.
pub const LENGTH_MARKER: u8 = 17;

/// The first byte of every keystream.
pub const KEY_LEAD: u8 = 0x47;

/// What is added to a serial number, modulo 2^32, to get the value whose
/// bytes make up the rest of the keystream.
pub const KEY_OFFSET: u32 = 0x8AEF_9335;

/// The number that two bytes spell, the first being the more significant.
pub open spec fn word16(hi: u8, lo: u8) -> int {
    hi * 256 + lo
}

/// The number that four bytes spell, the first being the most significant.
pub open spec fn word32(b0: u8, b1: u8, b2: u8, b3: u8) -> int {
    ((b0 * 256 + b1) * 256 + b2) * 256 + b3
}

/// The value that a serial number's keystream is cut from.
pub open spec fn key_base(serial: u32) -> int {
    (serial + KEY_OFFSET) % 0x1_0000_0000
}

/// The keystream of the transmitter with this serial number: the lead byte,
/// then the base value's bytes in the order third, fourth, first, second,
/// counted from the least significant.
pub open spec fn keystream(serial: u32) -> Seq<u8> {
    let base: int = key_base(serial);
    seq![
        KEY_LEAD,
        ((base / 0x1_0000) % 256) as u8,
        ((base / 0x100_0000) % 256) as u8,
        (base % 256) as u8,
        ((base / 0x100) % 256) as u8,
    ]
}

/// Byte `i` of the payload `data` with the mask taken off, for `3 <= i < 18`.
pub open spec fn clear(key: Seq<u8>, data: Seq<u8>, i: int) -> u8 {
    data[i] ^ key[(i - 3) % 5]
}

/// The fields that the payload `data` holds under the keystream `key`.
pub open spec fn fields(key: Seq<u8>, data: Seq<u8>) -> SparsnasPacket {
    SparsnasPacket {
        status: word16(clear(key, data, 3), clear(key, data, 4)) as u16,
        serial: word32(
            clear(key, data, 5),
            clear(key, data, 6),
            clear(key, data, 7),
            clear(key, data, 8),
        ) as u32,
        packet_seq: word16(clear(key, data, 9), clear(key, data, 10)) as u16,
        time_between_pulses: word16(clear(key, data, 11), clear(key, data, 12)) as u16,
        pulse_count: word32(
            clear(key, data, 13),
            clear(key, data, 14),
            clear(key, data, 15),
            clear(key, data, 16),
        ) as u32,
        battery_percentage: clear(key, data, 17),
    }
}

/// Joins two bytes to the number that they spell.
pub fn be16(hi: u8, lo: u8) -> (v: u16)
    ensures
        v == word16(hi, lo),
{
    let v: u16 = ((hi as u16) << 8) | (lo as u16);
    assert(v == hi * 256 + lo) by (bit_vector)
        requires
            v == ((hi as u16) << 8) | (lo as u16),
    ;
    v
}

/// Joins four bytes to the number that they spell.
pub fn be32(b0: u8, b1: u8, b2: u8, b3: u8) -> (v: u32)
    ensures
        v == word32(b0, b1, b2, b3),
{
    let v: u32 = ((b0 as u32) << 24) | ((b1 as u32) << 16) | ((b2 as u32) << 8) | (b3 as u32);
    assert(v == ((b0 * 256 + b1) * 256 + b2) * 256 + b3) by (bit_vector)
        requires
            v == ((b0 as u32) << 24) | ((b1 as u32) << 16) | ((b2 as u32) << 8) | (b3 as u32),
    ;
    v
}

/// Derives the keystream of the transmitter with this serial number.
pub fn derive_key(serial: u32) -> (key: [u8; 5])
    ensures
        key@ == keystream(serial),
        key@[0] == KEY_LEAD,
{
    let base: u32 = serial.wrapping_add(KEY_OFFSET);
    let k1: u8 = #[verifier::truncate] ((base >> 16) as u8);
    let k2: u8 = #[verifier::truncate] ((base >> 24) as u8);
    let k3: u8 = #[verifier::truncate] (base as u8);
    let k4: u8 = #[verifier::truncate] ((base >> 8) as u8);
    assert(base == key_base(serial));
    assert(k1 == (base / 0x1_0000) % 256 && k2 == (base / 0x100_0000) % 256 && k3 == base % 256
        && k4 == (base / 0x100) % 256) by (bit_vector)
        requires
            k1 == (base >> 16) as u8,
            k2 == (base >> 24) as u8,
            k3 == base as u8,
            k4 == (base >> 8) as u8,
    ;
    let key: [u8; 5] = [KEY_LEAD, k1, k2, k3, k4];
    assert(key@ =~= keystream(serial));
    key
}

} // verus!
