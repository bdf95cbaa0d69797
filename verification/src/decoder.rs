//! The decoder for one transmitter.

use vstd::prelude::*;
use crate::ikeacrc::{crc, crc16};
use crate::packet::SparsnasPacket;
use crate::wire::{be16, be32, derive_key, fields, keystream, word16, LENGTH_MARKER};

verus! {

/// Why a packet was turned down.
#[derive(Debug, Clone, Copy, PartialEq, Eq, Structural)]
pub enum SparsnasDecodeError {
    /// The checksum at the end of the packet is not that of its payload.
    BadCRC,
    /// The payload does not start with the length marker.
    BadLength,
    /// The serial number in the payload is not the decoder's.
    BadSerial,
    /// The sequence number does not end in the bits that the payload repeats
    /// in the clear.
    BadPacketCount,
}

/// A packet carries the last six decimal digits of its transmitter's serial
/// number: the serial number modulo this.
pub const SERIAL_MODULUS: u32 = 1_000_000;

/// What a decoder for the transmitter `serial` makes of the payload `data`,
/// 18 bytes without a checksum. The length marker is looked at first, then
/// the sequence number, then the serial number.
pub open spec fn decoded_payload(serial: u32, data: Seq<u8>) -> Result<
    SparsnasPacket,
    SparsnasDecodeError,
> {
    let pkt = fields(keystream(serial), data);
    if data[0] != LENGTH_MARKER {
        Err(SparsnasDecodeError::BadLength)
    } else if pkt.packet_seq % 128 != data[2] {
        Err(SparsnasDecodeError::BadPacketCount)
    } else if pkt.serial != serial % SERIAL_MODULUS {
        Err(SparsnasDecodeError::BadSerial)
    } else {
        Ok(pkt)
    }
}

/// Whether the last two bytes of the 20-byte packet `data` spell the
/// checksum of the 18 before them.
pub open spec fn checksum_holds(data: Seq<u8>) -> bool {
    word16(data[18], data[19]) == crc16(data.take(18))
}

/// What a decoder for the transmitter `serial` makes of the packet `data`,
/// 20 bytes of which the last two are the checksum. A wrong checksum is
/// reported before anything else is looked at.
pub open spec fn decoded_packet(serial: u32, data: Seq<u8>) -> Result<
    SparsnasPacket,
    SparsnasDecodeError,
> {
    if !checksum_holds(data) {
        Err(SparsnasDecodeError::BadCRC)
    } else {
        decoded_payload(serial, data.take(18))
    }
}

/// A decoder for the packets of one transmitter.
pub struct SparsnasDecoder {
    serial: u32,
    key: [u8; 5],
}

impl View for SparsnasDecoder {
    type V = u32;

    /// The serial number that the decoder was made for.
    closed spec fn view(&self) -> u32 {
        self.serial
    }
}

impl SparsnasDecoder {
    /// The keystream that the decoder holds.
    pub closed spec fn spec_key(&self) -> Seq<u8> {
        self.key@
    }

    /// The key is the keystream of the serial number, always.
    #[verifier::type_invariant]
    spec fn key_is_derived(&self) -> bool {
        self.key@ == keystream(self.serial)
    }

    /// Makes a decoder for the transmitter with this serial number.
    ///
    /// The serial number is on a label behind the batteries, nine digits
    /// (nnn-nnn-nnn).
    pub fn new(serial: u32) -> (decoder: Self)
        ensures
            decoder@ == serial,
            decoder.spec_key() == keystream(serial),
            decoder.spec_key()[0] == 0x47,
    {
        SparsnasDecoder { serial, key: derive_key(serial) }
    }

    /// The serial number that the decoder was made for.
    pub fn serial(&self) -> (serial: u32)
        ensures
            serial == self@,
    {
        self.serial
    }

    /// The keystream that the decoder takes off each payload.
    pub fn key(&self) -> (key: [u8; 5])
        ensures
            key@ == self.spec_key(),
            key@ == keystream(self@),
            key@[0] == 0x47,
    {
        proof {
            use_type_invariant(self);
        }
        self.key
    }

    /// Decodes a payload that comes without a checksum.
    pub fn decode_nocrc(&self, data: &[u8; 18]) -> (res: Result<
        SparsnasPacket,
        SparsnasDecodeError,
    >)
        ensures
            res == decoded_payload(self@, data@),
    {
        proof {
            use_type_invariant(self);
        }
        if data[0] != LENGTH_MARKER {
            return Err(SparsnasDecodeError::BadLength);
        }
        let pkt = SparsnasPacket {
            status: be16(data[3] ^ self.key[0], data[4] ^ self.key[1]),
            serial: be32(
                data[5] ^ self.key[2],
                data[6] ^ self.key[3],
                data[7] ^ self.key[4],
                data[8] ^ self.key[0],
            ),
            packet_seq: be16(data[9] ^ self.key[1], data[10] ^ self.key[2]),
            time_between_pulses: be16(data[11] ^ self.key[3], data[12] ^ self.key[4]),
            pulse_count: be32(
                data[13] ^ self.key[0],
                data[14] ^ self.key[1],
                data[15] ^ self.key[2],
                data[16] ^ self.key[3],
            ),
            battery_percentage: data[17] ^ self.key[4],
        };
        assert(pkt == fields(keystream(self@), data@));
        let seq: u16 = pkt.packet_seq;
        let low_seq: u8 = #[verifier::truncate] ((seq & 0x7f) as u8);
        assert(low_seq == seq % 128) by (bit_vector)
            requires
                low_seq == (seq & 0x7f) as u8,
        ;
        if low_seq != data[2] {
            return Err(SparsnasDecodeError::BadPacketCount);
        }
        if pkt.serial != self.serial % SERIAL_MODULUS {
            return Err(SparsnasDecodeError::BadSerial);
        }
        Ok(pkt)
    }

    /// Decodes a packet that ends in its checksum.
    pub fn decode(&self, data: &[u8; 20]) -> (res: Result<SparsnasPacket, SparsnasDecodeError>)
        ensures
            res == decoded_packet(self@, data@),
    {
        let payload: [u8; 18] = payload_of(data);
        let sum: u16 = crc(payload.as_slice());
        if be16(data[18], data[19]) != sum {
            return Err(SparsnasDecodeError::BadCRC);
        }
        self.decode_nocrc(&payload)
    }
}

/// Copies the payload out of a packet.
fn payload_of(data: &[u8; 20]) -> (payload: [u8; 18])
    ensures
        payload@ == data@.take(18),
{
    let mut payload: [u8; 18] = [0u8; 18];
    let mut i: usize = 0;
    while i < 18
        invariant
            i <= 18,
            forall|k: int| 0 <= k < i ==> payload@[k] == data@[k],
        decreases 18 - i,
    {
        payload[i] = data[i];
        i = i + 1;
    }
    assert(payload@ =~= data@.take(18));
    payload
}

} // verus!
