use dukascopy_fx::parser::{DukascopyParser, RECORD_LEN};
use dukascopy_fx::{DukascopyError, Tick};

fn record(offset_ms: u32, ask_raw: u32, bid_raw: u32, ask_volume: f32, bid_volume: f32) -> Vec<u8> {
    let mut bytes = Vec::new();
    bytes.extend_from_slice(&offset_ms.to_be_bytes());
    bytes.extend_from_slice(&ask_raw.to_be_bytes());
    bytes.extend_from_slice(&bid_raw.to_be_bytes());
    bytes.extend_from_slice(&ask_volume.to_bits().to_be_bytes());
    bytes.extend_from_slice(&bid_volume.to_bits().to_be_bytes());
    bytes
}

fn as_floats(tick: Tick) -> (u32, f64, f64, f32, f32) {
    (
        tick.offset_ms,
        tick.ask_raw as f64 / 100_000.0,
        tick.bid_raw as f64 / 100_000.0,
        f32::from_bits(tick.ask_volume_bits),
        f32::from_bits(tick.bid_volume_bits),
    )
}

#[test]
fn test_parse_tick() {
    let data = vec![
        0x00, 0x00, 0x00, 0x01, // ms = 1
        0x00, 0x00, 0x00, 0x02, // ask = 2
        0x00, 0x00, 0x00, 0x03, // bid = 3
        0x40, 0x00, 0x00, 0x00, // ask_volume = 2.0
        0x40, 0x80, 0x00, 0x00, // bid_volume = 4.0
    ];

    let result = DukascopyParser::parse_tick(&data).unwrap();
    assert_eq!(as_floats(result), (1, 0.00002, 0.00003, 2.0, 4.0));
}

#[test]
fn test_parse_tick_invalid_data() {
    let data = vec![0x00; 19]; // Incomplete data
    let result = DukascopyParser::parse_tick(&data);
    assert!(result.is_err());
}

#[test]
fn test_validate_decompressed_data() {
    let valid_data = vec![0x00; 20]; // Valid data (multiple of 20)
    let invalid_data = vec![0x00; 19]; // Invalid data (not multiple of 20)

    assert!(DukascopyParser::validate_decompressed_data(&valid_data).is_ok());
    assert!(DukascopyParser::validate_decompressed_data(&invalid_data).is_err());
}

#[test]
fn record_length_is_twenty_bytes() {
    assert_eq!(RECORD_LEN, 20);
    assert_eq!(record(1, 2, 3, 4.0, 5.0).len(), 20);
}

#[test]
fn parse_tick_reads_fields_most_significant_byte_first() {
    let data = vec![
        0x01, 0x02, 0x03, 0x04, 0x00, 0x01, 0xAD, 0xB0, 0x00, 0x01, 0xAD, 0x9C, 0x3F, 0x80, 0x00,
        0x00, 0x40, 0x20, 0x00, 0x00,
    ];
    let tick = DukascopyParser::parse_tick(&data).unwrap();
    assert_eq!(
        tick,
        Tick {
            offset_ms: 0x0102_0304,
            ask_raw: 110_000,
            bid_raw: 109_980,
            ask_volume_bits: 0x3F80_0000,
            bid_volume_bits: 0x4020_0000,
        }
    );
    assert_eq!(as_floats(tick), (16_909_060, 1.1, 1.0998, 1.0, 2.5));
}

#[test]
fn parse_tick_round_trips_encoded_records() {
    let cases: Vec<(u32, u32, u32, f32, f32)> = vec![
        (0, 1, 1, 0.0, 0.0),
        (1, 2, 3, 2.0, 4.0),
        (3_599_999, 405_123, 405_098, 1.5, 0.75),
        (u32::MAX, u32::MAX, u32::MAX, f32::MAX, f32::MIN_POSITIVE),
        (0x8000_0000, 0x0100_0000, 0x0001_0000, 1.0e-30, 12_000_000.0),
    ];
    for (offset_ms, ask_raw, bid_raw, ask_volume, bid_volume) in cases {
        let data = record(offset_ms, ask_raw, bid_raw, ask_volume, bid_volume);
        let tick = DukascopyParser::parse_tick(&data).unwrap();
        assert_eq!(tick.offset_ms, offset_ms);
        assert_eq!(tick.ask_raw, ask_raw);
        assert_eq!(tick.bid_raw, bid_raw);
        assert_eq!(tick.ask_raw as f64 / 100_000.0, ask_raw as f64 / 100_000.0);
        assert_eq!(tick.bid_raw as f64 / 100_000.0, bid_raw as f64 / 100_000.0);
        assert_eq!(f32::from_bits(tick.ask_volume_bits), ask_volume);
        assert_eq!(f32::from_bits(tick.bid_volume_bits), bid_volume);
    }
}

#[test]
fn parse_tick_rejects_every_length_below_twenty() {
    let full = record(1, 2, 3, 2.0, 4.0);
    for len in 0..20 {
        assert_eq!(
            DukascopyParser::parse_tick(&full[..len]),
            Err(DukascopyError::InvalidTickData)
        );
    }
}

#[test]
fn parse_tick_reads_the_first_record_of_a_longer_slice() {
    let mut data = record(7, 8, 9, 1.0, 1.0);
    data.extend_from_slice(&[0xFF; 13]);
    let tick = DukascopyParser::parse_tick(&data).unwrap();
    assert_eq!((tick.offset_ms, tick.ask_raw, tick.bid_raw), (7, 8, 9));
}

#[test]
fn parse_tick_rejects_zero_ask() {
    let data = record(1, 0, 3, 2.0, 4.0);
    assert_eq!(DukascopyParser::parse_tick(&data), Err(DukascopyError::InvalidTickData));
}

#[test]
fn parse_tick_rejects_zero_bid() {
    let data = record(1, 2, 0, 2.0, 4.0);
    assert_eq!(DukascopyParser::parse_tick(&data), Err(DukascopyError::InvalidTickData));
}

#[test]
fn parse_tick_rejects_negative_volumes() {
    for volume in [-1.0f32, -0.5, -f32::MIN_POSITIVE, f32::MIN, f32::NEG_INFINITY] {
        let ask = record(1, 2, 3, volume, 4.0);
        assert_eq!(DukascopyParser::parse_tick(&ask), Err(DukascopyError::InvalidTickData));
        let bid = record(1, 2, 3, 4.0, volume);
        assert_eq!(DukascopyParser::parse_tick(&bid), Err(DukascopyError::InvalidTickData));
    }
    // The smallest negative subnormal, written out as bits.
    let mut data = record(1, 2, 3, 0.0, 0.0);
    data[12..16].copy_from_slice(&[0x80, 0x00, 0x00, 0x01]);
    assert_eq!(DukascopyParser::parse_tick(&data), Err(DukascopyError::InvalidTickData));
}

#[test]
fn parse_tick_accepts_volumes_that_do_not_compare_below_zero() {
    for volume in [0.0f32, -0.0, f32::INFINITY, f32::NAN, -f32::NAN] {
        let data = record(1, 2, 3, volume, volume);
        let tick = DukascopyParser::parse_tick(&data).unwrap();
        assert_eq!(tick.ask_volume_bits, volume.to_bits());
        assert_eq!(tick.bid_volume_bits, volume.to_bits());
        assert!(!(f32::from_bits(tick.ask_volume_bits) < 0.0));
    }
}

#[test]
fn validate_accepts_multiples_of_twenty_only() {
    for len in 0..=200usize {
        let data = vec![0xABu8; len];
        let verdict = DukascopyParser::validate_decompressed_data(&data);
        if len % 20 == 0 {
            assert_eq!(verdict, Ok(()));
        } else {
            assert_eq!(verdict, Err(DukascopyError::InvalidTickData));
        }
    }
}
