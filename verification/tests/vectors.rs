use sparsnas_decoder::{SparsnasDecodeError, SparsnasDecoder, SparsnasPacket};

#[test]
fn kodarn() {
    // from https://github.com/kodarn/Sparsnas
    let testdata = [
        0x11, 0x49, 0x24, 0x07, 0x0e, 0xa2, 0x76, 0x17, 0x0e, 0xcf, 0x86, 0x91, 0x67, 0x47,
        0xcf, 0xa2, 0x77, 0xd3, 0x6e, 0x2d,
    ];

    let d = SparsnasDecoder::new(400_565_321);

    let pkt = d.decode(&testdata).unwrap();
    let pkt_no_crc = d.decode_nocrc(testdata[0..18].try_into().unwrap()).unwrap();

    let expected = SparsnasPacket {
        packet_seq: 36,
        time_between_pulses: 61392,
        pulse_count: 9,
        battery_percentage: 100,
        status: 16577,
        serial: 565321,
    };

    assert_eq!(pkt, expected);
    assert_eq!(pkt_no_crc, expected);
}

#[test]
fn real_packet() {
    let testdata = [
        0x11, 0xe0, 0x2b, 0x07, 0x0e, 0xa2, 0x1d, 0x28, 0xa7, 0x80, 0x09, 0x12, 0xbe, 0x47,
        0x8a, 0x20, 0x5b, 0x14, 0x69, 0x57,
    ];

    let d = SparsnasDecoder::new(400_547_040);

    let pkt = d.decode(&testdata).unwrap();

    let expected = SparsnasPacket {
        packet_seq: 20395,
        time_between_pulses: 1998,
        pulse_count: 4555342,
        battery_percentage: 100,
        status: 16577,
        serial: 547040,
    };

    assert_eq!(pkt, expected);
    assert_eq!(pkt.power(1000), 1845);
}

#[test]
fn bad_crc() {
    let testdata = [
        0x11, 0xe0, 0x2b, 0x07, 0x0e, 0xa2, 0x1d, 0x28, 0xa7, 0x80, 0x09, 0x12, 0xbe, 0x47,
        0x8a, 0x20, 0x5b, 0x14, 0xff, 0xff, // last two u8 crc changed
    ];

    let d = SparsnasDecoder::new(400_547_040);

    let res = d.decode(&testdata);

    assert_eq!(res, Err(SparsnasDecodeError::BadCRC));
}
