//! The checksum that closes a packet: a 16-bit cyclic redundancy check with
//! generator `0x8005`, a register that starts at `0xFFFF`, bits taken most
//! significant first, and no final inversion.

use vstd::prelude::*;

verus! {

/// The generator polynomial, without its leading term.
pub const POLY: u16 = 0x8005;

/// The register before the first bit.
pub const INIT: u16 = 0xFFFF;

/// The register after one more message bit: it moves left by one place, and
/// the generator is folded in where the bit that left differs from `bit`.
pub open spec fn shift_in(reg: u16, bit: bool) -> u16 {
    if (reg & 0x8000 != 0) != bit {
        (reg << 1) ^ POLY
    } else {
        reg << 1
    }
}

/// The register after the `n` leading bits of `byte`, most significant first.
pub open spec fn feed_bits(reg: u16, byte: u8, n: nat) -> u16
    decreases n,
{
    if n == 0 {
        reg
    } else {
        feed_bits(shift_in(reg, byte & 0x80 != 0), byte << 1, (n - 1) as nat)
    }
}

/// The register after all of `bytes`, first byte first.
pub open spec fn feed(reg: u16, bytes: Seq<u8>) -> u16
    decreases bytes.len(),
{
    if bytes.len() == 0 {
        reg
    } else {
        feed_bits(feed(reg, bytes.drop_last()), bytes.last(), 8)
    }
}

/// The checksum of `bytes`.
pub open spec fn crc16(bytes: Seq<u8>) -> u16 {
    feed(INIT, bytes)
}

/// Whether `n` shifts to the left leave nothing of `byte`.
spec fn spent(byte: u8, n: nat) -> bool
    decreases n,
{
    if n == 0 {
        byte == 0
    } else {
        spent(byte << 1, (n - 1) as nat)
    }
}

/// Eight shifts leave nothing of any byte.
proof fn lemma_spent_after_eight(byte: u8)
    ensures
        spent(byte, 8),
{
    reveal_with_fuel(spent, 9);
    assert((((((((byte << 1) << 1) << 1) << 1) << 1) << 1) << 1) << 1 == 0) by (bit_vector);
}

/// Taking a bit in while shifting gives the same register as folding the
/// byte into the register's upper half first and shifting a zero in.
proof fn lemma_fold_then_shift(reg: u16, byte: u8)
    ensures
        shift_in(reg ^ ((byte as u16) << 8), false) == shift_in(reg, byte & 0x80 != 0) ^ (((byte
            << 1) as u16) << 8),
{
    assert(({
        let folded: u16 = reg ^ ((byte as u16) << 8);
        let quick: u16 = if folded & 0x8000 != 0 {
            (folded << 1) ^ 0x8005
        } else {
            folded << 1
        };
        let slow: u16 = if (reg & 0x8000 != 0) != (byte & 0x80 != 0) {
            (reg << 1) ^ 0x8005
        } else {
            reg << 1
        };
        quick == slow ^ (((byte << 1) as u16) << 8)
    })) by (bit_vector);
}

/// Feeding the bits of a byte one by one equals folding the whole byte into
/// the register's upper half and then feeding as many zero bits, provided
/// that those bits are all that the byte holds.
proof fn lemma_feed_bits_folded(reg: u16, byte: u8, n: nat)
    requires
        spent(byte, n),
    ensures
        feed_bits(reg, byte, n) == feed_bits(reg ^ ((byte as u16) << 8), 0, n),
    decreases n,
{
    if n == 0 {
        assert(reg ^ ((0u8 as u16) << 8) == reg) by (bit_vector);
    } else {
        let m: nat = (n - 1) as nat;
        lemma_fold_then_shift(reg, byte);
        lemma_feed_bits_folded(shift_in(reg, byte & 0x80 != 0), byte << 1, m);
        assert(0u8 & 0x80 == 0 && 0u8 << 1 == 0) by (bit_vector);
    }
}

/// Folds one byte into the register, eight shifts at once.
fn update(reg: u16, byte: u8) -> (r: u16)
    ensures
        r == feed_bits(reg, byte, 8),
{
    let start: u16 = reg ^ ((byte as u16) << 8);
    let mut r: u16 = start;
    let mut done: u8 = 0;
    while done < 8
        invariant
            done <= 8,
            feed_bits(start, 0, 8) == feed_bits(r, 0, (8 - done) as nat),
        decreases 8 - done,
    {
        proof {
            assert(0u8 & 0x80 == 0 && 0u8 << 1 == 0) by (bit_vector);
        }
        r = if r & 0x8000 != 0 {
            (r << 1) ^ POLY
        } else {
            r << 1
        };
        done = done + 1;
    }
    proof {
        lemma_spent_after_eight(byte);
        lemma_feed_bits_folded(reg, byte, 8);
    }
    r
}

/// Computes the checksum of `data`.
pub fn crc(data: &[u8]) -> (sum: u16)
    ensures
        sum == crc16(data@),
{
    let mut reg: u16 = INIT;
    let mut i: usize = 0;
    while i < data.len()
        invariant
            i <= data@.len(),
            reg == feed(INIT, data@.take(i as int)),
        decreases data@.len() - i,
    {
        proof {
            let upto = data@.take(i + 1);
            assert(upto.drop_last() == data@.take(i as int));
        }
        reg = update(reg, data[i]);
        i = i + 1;
    }
    proof {
        assert(data@.take(i as int) == data@);
    }
    reg
}

} // verus!
