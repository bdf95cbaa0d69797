use sparsnas_decoder::SparsnasPacket;

fn reading(time_between_pulses: u16) -> SparsnasPacket {
    SparsnasPacket {
        packet_seq: 1,
        time_between_pulses,
        pulse_count: 1,
        battery_percentage: 100,
        status: 0,
        serial: 1,
    }
}

#[test]
fn power_of_known_readings() {
    assert_eq!(reading(1998).power(1000), 1845);
    assert_eq!(reading(61392).power(1000), 60);
    assert_eq!(reading(1).power(1), 3_686_400_000);
    assert_eq!(reading(1).power(1000), 3_686_400);
    assert_eq!(reading(65535).power(1000), 56);
}

#[test]
fn power_rounds_down() {
    // 3_686_400_000 / 7_000 is 526_628.57...
    assert_eq!(reading(7).power(1000), 526_628);
    // 3_686_400_000 / 3_686_400_001 is just under one.
    assert_eq!(reading(1).power(3_686_400_001), 0);
    assert_eq!(reading(1).power(3_686_400_000), 1);
}

#[test]
fn power_follows_the_formula_at_a_thousand_pulses() {
    for t in 1..=u16::MAX {
        let expected = 3_686_400_000u64 / (1000 * t as u64);
        assert_eq!(reading(t).power(1000) as u64, expected);
    }
}

#[test]
fn power_with_a_divisor_beyond_32_bits() {
    // 100_000 * 50_000 does not fit in 32 bits; the quotient is still exact.
    assert_eq!(reading(50_000).power(100_000), 0);
    assert_eq!(reading(65_535).power(65_537), 0);
    assert_eq!(reading(65_535).power(u32::MAX), 0);
    // 70_000 * 61_363 is 4_295_410_000.
    assert_eq!(reading(61_363).power(70_000), 0);
    assert_eq!(reading(40_000).power(46_080), 2);
}
