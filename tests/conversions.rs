use cc1101::lowlevel::convert::{
    from_chanbw, from_deviation, from_drate, from_freq_if, from_frequency, from_rssi_to_rssi_dbm,
    MAX_FREQUENCY_HZ,
};
use cc1101::lowlevel::FXOSC;

fn word(bytes: (u8, u8, u8)) -> u64 {
    (bytes.2 as u64) << 16 | (bytes.1 as u64) << 8 | bytes.0 as u64
}

fn drate_of(m: u8, e: u8) -> f64 {
    (256.0 + m as f64) * (1u64 << e) as f64 * FXOSC as f64 / (1u64 << 28) as f64
}

#[test]
fn frequency_433_92_mhz() {
    assert_eq!(from_frequency(433_920_000), (0x71, 0xB0, 0x10));
}

#[test]
fn frequency_868_3_mhz() {
    // round(868.3e6 * 2^16 / 26e6) = 2188650 = 0x21656A
    assert_eq!(from_frequency(868_300_000), (0x6A, 0x65, 0x21));
}

#[test]
fn frequency_round_trip_within_one_step() {
    let step = FXOSC / 65536;
    for hz in [300_000_000u64, 315_000_000, 387_000_000, 433_920_000, 464_000_000, 779_000_000, 868_300_000, 915_000_000, 928_000_000] {
        let decoded = word(from_frequency(hz)) * FXOSC / 65536;
        let diff = if decoded > hz { decoded - hz } else { hz - decoded };
        assert!(diff <= step, "{} Hz decoded as {} Hz", hz, decoded);
    }
}

#[test]
fn frequency_saturates_above_range() {
    assert_eq!(from_frequency(0), (0, 0, 0));
    assert_eq!(word(from_frequency(MAX_FREQUENCY_HZ)), 0xFF_FFFF);
    assert_eq!(from_frequency(MAX_FREQUENCY_HZ + 1), (0xFF, 0xFF, 0xFF));
    assert_eq!(from_frequency(u64::MAX), (0xFF, 0xFF, 0xFF));
}

#[test]
fn drate_examples() {
    assert_eq!(from_drate(1_200), (132, 5));
    assert_eq!(from_drate(9_600), (132, 8));
    assert_eq!(from_drate(38_400), (132, 10));
    assert_eq!(from_drate(100_000), (249, 11));
    assert_eq!(from_drate(250_000), (60, 13));
}

#[test]
fn drate_saturates() {
    assert_eq!(from_drate(0), (0, 0));
    assert_eq!(from_drate(1), (0, 0));
    assert_eq!(from_drate(1_621_826), (255, 15));
    assert_eq!(from_drate(2_000_000), (255, 15));
    assert_eq!(from_drate(u64::MAX), (255, 15));
}

#[test]
fn drate_is_smallest_reaching_and_close() {
    let mut baud = 25u64;
    while baud < 1_621_826 {
        let (m, e) = from_drate(baud);
        let rate = drate_of(m, e);
        assert!(rate >= baud as f64, "{} baud encoded as {}", baud, rate);
        assert!((rate - baud as f64) * 256.0 < rate, "{} baud encoded as {}", baud, rate);
        // no other encoding reaches baud with a smaller rate
        for e2 in 0..16u8 {
            for m2 in 0..=255u8 {
                let other = drate_of(m2, e2);
                assert!(!(other >= baud as f64 && other < rate));
            }
        }
        baud = baud * 3 / 2 + 7;
    }
}

#[test]
fn deviation_examples() {
    assert_eq!(from_deviation(47_607), (7, 4));
    assert_eq!(from_deviation(20_000), (5, 3));
    assert_eq!(from_deviation(1_587), (1, 0));
    assert_eq!(from_deviation(0), (0, 0));
    assert_eq!(from_deviation(400_000), (7, 7));
}

#[test]
fn chanbw_examples() {
    assert_eq!(from_chanbw(203_125), (0, 2));
    assert_eq!(from_chanbw(200_000), (0, 2));
    assert_eq!(from_chanbw(58_036), (2, 3));
    assert_eq!(from_chanbw(58_035), (3, 3));
    assert_eq!(from_chanbw(0), (3, 3));
    assert_eq!(from_chanbw(812_500), (0, 0));
    assert_eq!(from_chanbw(1_000_000), (0, 0));
}

#[test]
fn freq_if_examples() {
    assert_eq!(from_freq_if(203_125), 8);
    assert_eq!(from_freq_if(0), 0);
    assert_eq!(from_freq_if(10_000_000), 31);
}

#[test]
fn rssi_examples() {
    assert_eq!(from_rssi_to_rssi_dbm(0), -74);
    assert_eq!(from_rssi_to_rssi_dbm(127), -11);
    assert_eq!(from_rssi_to_rssi_dbm(128), -138);
    assert_eq!(from_rssi_to_rssi_dbm(255), -74);
    assert_eq!(from_rssi_to_rssi_dbm(254), -75);
    assert_eq!(from_rssi_to_rssi_dbm(129), -137);
    assert_eq!(from_rssi_to_rssi_dbm(0xC8), -102);
}

#[test]
fn rssi_monotonic_in_signed_value() {
    let mut prev = i16::MIN;
    for signed in -128i16..=127 {
        let raw = (signed as i8) as u8;
        let dbm = from_rssi_to_rssi_dbm(raw);
        assert!(dbm >= prev);
        prev = dbm;
    }
    assert!(from_rssi_to_rssi_dbm(255) <= from_rssi_to_rssi_dbm(0));
    assert!(from_rssi_to_rssi_dbm(128) < from_rssi_to_rssi_dbm(127));
}
