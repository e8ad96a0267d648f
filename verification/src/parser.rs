//! The wire format of an archive: a run of 20-byte big-endian tick records.

use std::io::Cursor;

use byteorder::{BigEndian, ReadBytesExt};
use vstd::prelude::*;
use vstd::slice::slice_subrange;

use crate::error::DukascopyError;
use crate::models::{is_negative_single, Tick};

verus! {

/// The size of one tick record in bytes.
pub const RECORD_LEN: usize = 20;

/// The unsigned number that the first four bytes spell, most significant byte first.
pub open spec fn be_u32(bytes: Seq<u8>) -> int {
    bytes[0] * 0x100_0000 + bytes[1] * 0x1_0000 + bytes[2] * 0x100 + bytes[3]
}

/// The four bytes that spell `value`, most significant byte first.
pub open spec fn be_bytes(value: u32) -> Seq<u8> {
    seq![
        (value / 0x100_0000) as u8,
        (value / 0x1_0000 % 0x100) as u8,
        (value / 0x100 % 0x100) as u8,
        (value % 0x100) as u8,
    ]
}

/// The record whose fields are the five big-endian words at the start of `bytes`.
pub open spec fn record_fields(bytes: Seq<u8>) -> Tick {
    Tick {
        offset_ms: be_u32(bytes.subrange(0, 4)) as u32,
        ask_raw: be_u32(bytes.subrange(4, 8)) as u32,
        bid_raw: be_u32(bytes.subrange(8, 12)) as u32,
        ask_volume_bits: be_u32(bytes.subrange(12, 16)) as u32,
        bid_volume_bits: be_u32(bytes.subrange(16, 20)) as u32,
    }
}

/// The tick that `bytes` starts with, or `None` where fewer than 20 bytes are
/// there or the record is not well formed.
pub open spec fn decode_record(bytes: Seq<u8>) -> Option<Tick> {
    if bytes.len() >= 20 && record_fields(bytes).well_formed() {
        Some(record_fields(bytes))
    } else {
        None
    }
}

/// The 20 bytes of a tick on the wire.
pub open spec fn encode_record(tick: Tick) -> Seq<u8> {
    be_bytes(tick.offset_ms) + be_bytes(tick.ask_raw) + be_bytes(tick.bid_raw) + be_bytes(
        tick.ask_volume_bits,
    ) + be_bytes(tick.bid_volume_bits)
}

/// Four big-endian bytes spell the number they were made from.
pub proof fn lemma_be_u32_of_be_bytes(value: u32)
    ensures
        be_bytes(value).len() == 4,
        be_u32(be_bytes(value)) == value,
{
    let b0 = value / 0x100_0000;
    let b1 = value / 0x1_0000 % 0x100;
    let b2 = value / 0x100 % 0x100;
    let b3 = value % 0x100;
    assert(b0 < 0x100 && b1 < 0x100 && b2 < 0x100 && b3 < 0x100 && value == b0 * 0x100_0000 + b1
        * 0x1_0000 + b2 * 0x100 + b3) by (bit_vector)
        requires
            b0 == value / 0x100_0000,
            b1 == value / 0x1_0000 % 0x100,
            b2 == value / 0x100 % 0x100,
            b3 == value % 0x100,
    ;
    let bytes = be_bytes(value);
    assert(bytes[0] == b0 && bytes[1] == b1 && bytes[2] == b2 && bytes[3] == b3);
}

/// Decoding undoes encoding: a well-formed tick, written as 20 bytes and
/// decoded again, comes back with every field as it was.
pub proof fn lemma_decode_of_encode(tick: Tick)
    requires
        tick.well_formed(),
    ensures
        encode_record(tick).len() == 20,
        decode_record(encode_record(tick)) == Some(tick),
{
    let bytes = encode_record(tick);
    lemma_be_u32_of_be_bytes(tick.offset_ms);
    lemma_be_u32_of_be_bytes(tick.ask_raw);
    lemma_be_u32_of_be_bytes(tick.bid_raw);
    lemma_be_u32_of_be_bytes(tick.ask_volume_bits);
    lemma_be_u32_of_be_bytes(tick.bid_volume_bits);
    assert(bytes.subrange(0, 4) =~= be_bytes(tick.offset_ms));
    assert(bytes.subrange(4, 8) =~= be_bytes(tick.ask_raw));
    assert(bytes.subrange(8, 12) =~= be_bytes(tick.bid_raw));
    assert(bytes.subrange(12, 16) =~= be_bytes(tick.ask_volume_bits));
    assert(bytes.subrange(16, 20) =~= be_bytes(tick.bid_volume_bits));
}

/// Fewer than 20 bytes are no record.
pub proof fn lemma_short_record_is_rejected(bytes: Seq<u8>)
    requires
        bytes.len() < 20,
    ensures
        decode_record(bytes) is None,
{
}

/// A record with a zero price is rejected, whatever its other fields hold.
pub proof fn lemma_zero_price_is_rejected(bytes: Seq<u8>)
    requires
        bytes.len() >= 20,
        record_fields(bytes).ask_raw == 0 || record_fields(bytes).bid_raw == 0,
    ensures
        decode_record(bytes) is None,
{
}

/// `byteorder::ReadBytesExt::read_u32::<BigEndian>` on a cursor over `bytes`.
/// The call reads the first four bytes as one number, most significant byte
/// first, and fails where fewer than four bytes are there.
#[verifier::external_body]
fn read_u32_be(bytes: &[u8]) -> (value: Option<u32>)
    ensures
        match value {
            Some(number) => bytes@.len() >= 4 && number == be_u32(bytes@),
            None => bytes@.len() < 4,
        },
{
    Cursor::new(bytes).read_u32::<BigEndian>().ok()
}

/// Decoder for tick records and archive payloads.
pub struct DukascopyParser;

impl DukascopyParser {
    /// Decodes the record that `data` starts with. Fewer than 20 bytes, a price
    /// of zero or a volume below zero give `InvalidTickData`.
    pub fn parse_tick(data: &[u8]) -> (r: Result<Tick, DukascopyError>)
        ensures
            match decode_record(data@) {
                Some(tick) => r == Ok::<Tick, DukascopyError>(tick),
                None => r == Err::<Tick, DukascopyError>(DukascopyError::InvalidTickData),
            },
    {
        if data.len() < RECORD_LEN {
            return Err(DukascopyError::InvalidTickData);
        }
        let offset_ms = read_u32_be(slice_subrange(data, 0, 4));
        let ask_raw = read_u32_be(slice_subrange(data, 4, 8));
        let bid_raw = read_u32_be(slice_subrange(data, 8, 12));
        let ask_volume_bits = read_u32_be(slice_subrange(data, 12, 16));
        let bid_volume_bits = read_u32_be(slice_subrange(data, 16, 20));
        match (offset_ms, ask_raw, bid_raw, ask_volume_bits, bid_volume_bits) {
            (Some(offset_ms), Some(ask_raw), Some(bid_raw), Some(ask_volume_bits), Some(bid_volume_bits)) => {
                let tick = Tick { offset_ms, ask_raw, bid_raw, ask_volume_bits, bid_volume_bits };
                if ask_raw == 0 || bid_raw == 0 || is_negative_bits(ask_volume_bits)
                    || is_negative_bits(bid_volume_bits) {
                    Err(DukascopyError::InvalidTickData)
                } else {
                    Ok(tick)
                }
            },
            _ => Err(DukascopyError::InvalidTickData),
        }
    }

    /// Accepts a payload exactly when it is a whole number of records.
    pub fn validate_decompressed_data(data: &[u8]) -> (r: Result<(), DukascopyError>)
        ensures
            r is Ok <==> data@.len() % 20 == 0,
            r is Err ==> r == Err::<(), DukascopyError>(DukascopyError::InvalidTickData),
    {
        if data.len() % RECORD_LEN != 0 {
            return Err(DukascopyError::InvalidTickData);
        }
        Ok(())
    }
}

/// Whether a volume, given by its bits, is below zero.
fn is_negative_bits(bits: u32) -> (negative: bool)
    ensures
        negative == is_negative_single(bits),
{
    0x8000_0000 < bits && bits <= 0xFF80_0000
}

} // verus!
