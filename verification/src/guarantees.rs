//! What holds of every decoder and every packet.

use vstd::prelude::*;
use crate::decoder::{checksum_holds, decoded_packet, decoded_payload, SparsnasDecodeError};
use crate::wire::{fields, keystream, word16, word32};

verus! {

/// A keystream has five bytes, and the first is `0x47` whatever the serial
/// number.
pub proof fn lemma_keystream_lead(serial: u32)
    ensures
        keystream(serial).len() == 5,
        keystream(serial)[0] == 0x47,
{
}

/// Where the checksum holds, decoding a packet gives what decoding its
/// payload alone gives.
pub proof fn lemma_checksum_adds_nothing(serial: u32, data: Seq<u8>)
    requires
        data.len() == 20,
        checksum_holds(data),
    ensures
        decoded_packet(serial, data) == decoded_payload(serial, data.take(18)),
{
}

/// Two bytes spell one number only.
proof fn lemma_word16_unique(a: u8, b: u8, c: u8, d: u8)
    requires
        word16(a, b) == word16(c, d),
    ensures
        a == c,
        b == d,
{
}

/// A packet whose checksum held and whose last two bytes were then changed
/// in any way is turned down for its checksum, and for nothing else.
pub proof fn lemma_changed_checksum_is_reported(serial: u32, sent: Seq<u8>, received: Seq<u8>)
    requires
        sent.len() == 20,
        received.len() == 20,
        checksum_holds(sent),
        received.take(18) == sent.take(18),
        received[18] != sent[18] || received[19] != sent[19],
    ensures
        decoded_packet(serial, received) matches Err(SparsnasDecodeError::BadCRC),
{
    if checksum_holds(received) {
        lemma_word16_unique(received[18], received[19], sent[18], sent[19]);
    }
}

/// A payload whose first byte was changed to anything but the length marker
/// is turned down for its length.
pub proof fn lemma_changed_marker_is_reported(serial: u32, data: Seq<u8>, marker: u8)
    requires
        data.len() == 18,
        marker != 17,
    ensures
        decoded_payload(serial, data.update(0, marker)) matches Err(SparsnasDecodeError::BadLength),
{
}

/// A packet whose first byte is not the length marker, and whose checksum
/// holds all the same, is turned down for its length.
pub proof fn lemma_wrong_marker_is_reported(serial: u32, data: Seq<u8>)
    requires
        data.len() == 20,
        data[0] != 17,
        checksum_holds(data),
    ensures
        decoded_packet(serial, data) matches Err(SparsnasDecodeError::BadLength),
{
}

/// A reading comes only from a payload that starts with the length marker;
/// it holds what the payload's fields spell under the decoder's keystream,
/// and its serial number is the decoder's, cut to its last six decimal
/// digits.
pub proof fn lemma_reading_names_decoder(serial: u32, data: Seq<u8>)
    requires
        data.len() == 18,
        decoded_payload(serial, data) is Ok,
    ensures
        decoded_payload(serial, data)->Ok_0.serial == serial % 1_000_000,
        decoded_payload(serial, data)->Ok_0 == fields(keystream(serial), data),
        data[0] == 17,
{
}

/// What the keystreams of the serial numbers `a` and `b` differ by where
/// they lie over the serial field: a payload's serial field as `b`'s decoder
/// reads it is the field as `a`'s decoder reads it, with these bits flipped.
pub open spec fn serial_field_shift(a: u32, b: u32) -> u32 {
    let ka = keystream(a);
    let kb = keystream(b);
    word32(ka[2] ^ kb[2], ka[3] ^ kb[3], ka[4] ^ kb[4], 0) as u32
}

/// Whether the decoder for `b` reads its own last six digits where the
/// decoder for `a` reads those of `a`. A serial number collides with itself,
/// and with some others.
pub open spec fn serials_collide(a: u32, b: u32) -> bool {
    (a % 1_000_000) ^ serial_field_shift(a, b) == b % 1_000_000
}

/// Some serial numbers collide with others: 0 and 1024 do.
pub proof fn lemma_collisions_exist()
    ensures
        serials_collide(0, 1024),
        exists|a: u32, b: u32| a != b && #[trigger] serials_collide(a, b),
{
    let ka = keystream(0);
    let kb = keystream(1024);
    assert(ka =~= seq![0x47u8, 0xEF, 0x8A, 0x35, 0x93]);
    assert(kb =~= seq![0x47u8, 0xEF, 0x8A, 0x35, 0x97]);
    assert(0xEFu8 ^ 0xEFu8 == 0 && 0x8Au8 ^ 0x8Au8 == 0 && 0x35u8 ^ 0x35u8 == 0 && 0x93u8 ^ 0x97u8
        == 4) by (bit_vector);
    assert(0u32 ^ 1024u32 == 1024u32) by (bit_vector);
    assert(0u32 != 1024u32 && serials_collide(0u32, 1024u32));
}

/// Taking one mask off four bytes and taking another off differ by the
/// bits in which the masks differ.
proof fn lemma_word32_remasked(d: (u8, u8, u8, u8), m: (u8, u8, u8, u8), n: (u8, u8, u8, u8))
    ensures
        word32(d.0 ^ n.0, d.1 ^ n.1, d.2 ^ n.2, d.3 ^ n.3) as u32 == (word32(
            d.0 ^ m.0,
            d.1 ^ m.1,
            d.2 ^ m.2,
            d.3 ^ m.3,
        ) as u32) ^ (word32(m.0 ^ n.0, m.1 ^ n.1, m.2 ^ n.2, m.3 ^ n.3) as u32),
{
    let (d0, d1, d2, d3): (u8, u8, u8, u8) = d;
    let (m0, m1, m2, m3): (u8, u8, u8, u8) = m;
    let (n0, n1, n2, n3): (u8, u8, u8, u8) = n;
    assert((((((d0 ^ n0) * 256 + (d1 ^ n1)) * 256 + (d2 ^ n2)) * 256 + (d3 ^ n3)) as u32) == ((((((
    d0 ^ m0) * 256 + (d1 ^ m1)) * 256 + (d2 ^ m2)) * 256 + (d3 ^ m3)) as u32) ^ (((((m0 ^ n0) * 256
        + (m1 ^ n1)) * 256 + (m2 ^ n2)) * 256 + (m3 ^ n3)) as u32))) by (bit_vector);
}

/// Numbers under a million differ in nothing above their low twenty bits,
/// so masks that turn one into the other agree in their first byte.
proof fn lemma_shift_is_low(x: u32, y: u32, p: u8, q: u8, r: u8)
    requires
        x < 1_000_000,
        y < 1_000_000,
        x ^ (word32(p, q, r, 0) as u32) == y,
    ensures
        p == 0,
{
    assert(x < 1_000_000 && y < 1_000_000 && x ^ ((((p * 256 + q) * 256 + r) * 256 + 0u8) as u32)
        == y ==> p == 0) by (bit_vector);
}

/// The low seven bits of a masked 16-bit field depend on the second byte
/// and its mask alone.
proof fn lemma_low_seven_bits(hi: u8, lo: u8, other_hi: u8, m: u8, n: u8)
    requires
        m ^ n == 0,
    ensures
        (word16(hi, lo ^ m) as u16) % 128 == (word16(other_hi, lo ^ n) as u16) % 128,
{
    assert(m ^ n == 0 ==> ((hi * 256 + (lo ^ m)) as u16) % 128 == ((other_hi * 256 + (lo ^ n))
        as u16) % 128) by (bit_vector);
}

/// A decoder made for another serial number never takes a payload for its
/// own, unless the two serial numbers collide: it turns the payload down for
/// its sequence number or for its serial number.
pub proof fn lemma_wrong_serial_is_reported(a: u32, b: u32, data: Seq<u8>)
    requires
        data.len() == 18,
        decoded_payload(a, data) is Ok,
        a != b,
        !serials_collide(a, b),
    ensures
        decoded_payload(b, data) matches Err(e) && (e == SparsnasDecodeError::BadSerial || e
            == SparsnasDecodeError::BadPacketCount),
{
    let ka = keystream(a);
    let kb = keystream(b);
    lemma_word32_remasked(
        (data[5], data[6], data[7], data[8]),
        (ka[2], ka[3], ka[4], ka[0]),
        (kb[2], kb[3], kb[4], kb[0]),
    );
    let lead: u8 = ka[0];
    assert(lead ^ lead == 0) by (bit_vector);
}

/// Where two serial numbers collide, the decoder for one takes every
/// payload that the decoder for the other takes.
pub proof fn lemma_colliding_serial_is_taken(a: u32, b: u32, data: Seq<u8>)
    requires
        data.len() == 18,
        decoded_payload(a, data) is Ok,
        serials_collide(a, b),
    ensures
        decoded_payload(b, data) == Ok::<_, SparsnasDecodeError>(fields(keystream(b), data)),
{
    let ka = keystream(a);
    let kb = keystream(b);
    lemma_word32_remasked(
        (data[5], data[6], data[7], data[8]),
        (ka[2], ka[3], ka[4], ka[0]),
        (kb[2], kb[3], kb[4], kb[0]),
    );
    let lead: u8 = ka[0];
    assert(lead ^ lead == 0) by (bit_vector);
    lemma_shift_is_low(
        (a % 1_000_000) as u32,
        (b % 1_000_000) as u32,
        ka[2] ^ kb[2],
        ka[3] ^ kb[3],
        ka[4] ^ kb[4],
    );
    lemma_low_seven_bits(data[9] ^ ka[1], data[10], data[9] ^ kb[1], ka[2], kb[2]);
}

/// What holds of payloads holds of packets: a decoder made for another
/// serial number turns down every packet that the right decoder takes,
/// unless the two serial numbers collide.
pub proof fn lemma_wrong_serial_is_reported_in_packet(a: u32, b: u32, data: Seq<u8>)
    requires
        data.len() == 20,
        decoded_packet(a, data) is Ok,
        a != b,
        !serials_collide(a, b),
    ensures
        decoded_packet(b, data) matches Err(e) && (e == SparsnasDecodeError::BadSerial || e
            == SparsnasDecodeError::BadPacketCount),
{
    lemma_wrong_serial_is_reported(a, b, data.take(18));
}

} // verus!
