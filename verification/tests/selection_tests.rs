use dukascopy_fx::selection::{select_closest, select_last, select_tick, Selection};
use dukascopy_fx::DukascopyError;

fn record(offset_ms: u32, ask_raw: u32, bid_raw: u32) -> Vec<u8> {
    let mut bytes = Vec::new();
    bytes.extend_from_slice(&offset_ms.to_be_bytes());
    bytes.extend_from_slice(&ask_raw.to_be_bytes());
    bytes.extend_from_slice(&bid_raw.to_be_bytes());
    bytes.extend_from_slice(&1.0f32.to_bits().to_be_bytes());
    bytes.extend_from_slice(&2.0f32.to_bits().to_be_bytes());
    bytes
}

fn archive(ticks: &[(u32, u32, u32)]) -> Vec<u8> {
    let mut bytes = Vec::new();
    for (offset_ms, ask_raw, bid_raw) in ticks {
        bytes.extend_from_slice(&record(*offset_ms, *ask_raw, *bid_raw));
    }
    bytes
}

#[test]
fn closest_picks_the_nearest_offset() {
    let payload = archive(&[(1000, 11, 10), (5000, 21, 20), (9000, 31, 30)]);
    let tick = select_closest(&payload, 4900).unwrap();
    assert_eq!(tick.offset_ms, 5000);
    assert_eq!((tick.ask_raw, tick.bid_raw), (21, 20));
}

#[test]
fn closest_picks_a_nearer_tick_before_the_target() {
    let payload = archive(&[(1000, 11, 10), (5000, 21, 20), (9000, 31, 30)]);
    assert_eq!(select_closest(&payload, 2900).unwrap().offset_ms, 1000);
    assert_eq!(select_closest(&payload, 7100).unwrap().offset_ms, 9000);
    assert_eq!(select_closest(&payload, 0).unwrap().offset_ms, 1000);
    assert_eq!(select_closest(&payload, 3_599_000).unwrap().offset_ms, 9000);
}

#[test]
fn closest_keeps_the_first_of_equally_near_ticks() {
    let payload = archive(&[(4000, 11, 10), (6000, 21, 20), (4000, 31, 30)]);
    let tick = select_closest(&payload, 5000).unwrap();
    assert_eq!((tick.offset_ms, tick.ask_raw), (4000, 11));
    let payload = archive(&[(6000, 21, 20), (4000, 11, 10)]);
    let tick = select_closest(&payload, 5000).unwrap();
    assert_eq!((tick.offset_ms, tick.ask_raw), (6000, 21));
}

#[test]
fn first_exact_match_wins() {
    let payload = archive(&[(1000, 11, 10), (5000, 21, 20), (5000, 31, 30), (9000, 41, 40)]);
    let tick = select_closest(&payload, 5000).unwrap();
    assert_eq!((tick.offset_ms, tick.ask_raw, tick.bid_raw), (5000, 21, 20));
}

#[test]
fn scan_stops_at_the_exact_match() {
    // The record after the exact match has a zero ask price and is never decoded.
    let payload = archive(&[(1000, 11, 10), (5000, 21, 20), (6000, 0, 30)]);
    assert_eq!(select_closest(&payload, 5000).unwrap().offset_ms, 5000);
    // Without an exact match the scan reaches the malformed record.
    assert_eq!(select_closest(&payload, 5001), Err(DukascopyError::InvalidTickData));
}

#[test]
fn malformed_record_before_the_match_fails() {
    let payload = archive(&[(1000, 11, 0), (5000, 21, 20)]);
    assert_eq!(select_closest(&payload, 5000), Err(DukascopyError::InvalidTickData));
}

#[test]
fn empty_archive_has_no_tick() {
    assert_eq!(select_closest(&[], 0), Err(DukascopyError::DataNotFound));
    assert_eq!(select_last(&[]), Err(DukascopyError::DataNotFound));
}

#[test]
fn partial_record_is_invalid() {
    let mut payload = archive(&[(1000, 11, 10)]);
    payload.push(0);
    assert_eq!(select_closest(&payload, 1000), Err(DukascopyError::InvalidTickData));
    assert_eq!(select_last(&payload), Err(DukascopyError::InvalidTickData));
    assert_eq!(select_closest(&payload[..19], 1000), Err(DukascopyError::InvalidTickData));
    assert_eq!(select_last(&payload[..1]), Err(DukascopyError::InvalidTickData));
}

#[test]
fn farthest_possible_tick_is_still_selected() {
    let payload = archive(&[(u32::MAX, 11, 10)]);
    assert_eq!(select_closest(&payload, 0).unwrap().offset_ms, u32::MAX);
}

#[test]
fn last_picks_the_last_record_in_archive_order() {
    let payload = archive(&[(9000, 11, 10), (1000, 21, 20), (5000, 31, 30)]);
    let tick = select_last(&payload).unwrap();
    assert_eq!((tick.offset_ms, tick.ask_raw, tick.bid_raw), (5000, 31, 30));
}

#[test]
fn last_decodes_every_record() {
    let payload = archive(&[(1000, 0, 10), (5000, 31, 30)]);
    assert_eq!(select_last(&payload), Err(DukascopyError::InvalidTickData));
    let payload = archive(&[(1000, 11, 10), (5000, 31, 0)]);
    assert_eq!(select_last(&payload), Err(DukascopyError::InvalidTickData));
}

#[test]
fn select_tick_follows_the_selection() {
    let payload = archive(&[(1000, 11, 10), (5000, 21, 20), (9000, 31, 30)]);
    let closest = select_tick(&payload, Selection::Closest { target_ms: 1200 }).unwrap();
    assert_eq!(closest.offset_ms, 1000);
    let last = select_tick(&payload, Selection::Last).unwrap();
    assert_eq!(last.offset_ms, 9000);
}
