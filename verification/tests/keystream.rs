use sparsnas_decoder::wire::{be16, be32, derive_key};
use sparsnas_decoder::SparsnasDecoder;

#[test]
fn key_starts_with_the_lead_byte() {
    for serial in [0u32, 1, 1024, 999_999, 400_565_321, 400_547_040, 0x7510_6CCB, u32::MAX] {
        assert_eq!(SparsnasDecoder::new(serial).key()[0], 0x47);
        assert_eq!(derive_key(serial)[0], 0x47);
    }
}

#[test]
fn key_of_known_serials() {
    assert_eq!(SparsnasDecoder::new(400_565_321).key(), [0x47, 0xcf, 0xa2, 0x7e, 0xb7]);
    assert_eq!(SparsnasDecoder::new(0).key(), [0x47, 0xef, 0x8a, 0x35, 0x93]);
    assert_eq!(SparsnasDecoder::new(1024).key(), [0x47, 0xef, 0x8a, 0x35, 0x97]);
}

#[test]
fn key_base_wraps_around() {
    // 0x7510_6CCB + 0x8AEF_9335 is 2^32.
    assert_eq!(derive_key(0x7510_6CCB), [0x47, 0, 0, 0, 0]);
    assert_eq!(derive_key(0x7510_6CCC), [0x47, 0, 0, 1, 0]);
    assert_eq!(derive_key(0x7510_6CCA), [0x47, 0xff, 0xff, 0xff, 0xff]);
    assert_eq!(derive_key(u32::MAX), [0x47, 0xef, 0x8a, 0x34, 0x93]);
}

#[test]
fn decoder_keeps_its_serial_and_key() {
    let d = SparsnasDecoder::new(400_547_040);
    assert_eq!(d.serial(), 400_547_040);
    assert_eq!(d.key(), derive_key(400_547_040));
}

#[test]
fn be16_puts_the_first_byte_on_top() {
    assert_eq!(be16(0x12, 0x34), 0x1234);
    assert_eq!(be16(0, 0), 0);
    assert_eq!(be16(0, 0xff), 255);
    assert_eq!(be16(0xff, 0), 65280);
    assert_eq!(be16(0xff, 0xff), u16::MAX);
}

#[test]
fn be32_puts_the_first_byte_on_top() {
    assert_eq!(be32(0x12, 0x34, 0x56, 0x78), 0x1234_5678);
    assert_eq!(be32(0, 0, 0, 0), 0);
    assert_eq!(be32(0x80, 0, 0, 1), 0x8000_0001);
    assert_eq!(be32(0xff, 0xff, 0xff, 0xff), u32::MAX);
    assert_eq!(be32(0x00, 0x08, 0xa0, 0x49), 565_321);
}
