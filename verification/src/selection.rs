//! Which tick of an archive answers a request.
//!
//! A weekday request is answered by the tick nearest to the requested offset
//! within the hour; among equally near ticks the first in the archive wins,
//! and the scan goes no further than a tick that lies exactly on the target.
//! A weekend request is answered by the last tick of the Friday's closing hour.

use vstd::prelude::*;
use vstd::slice::slice_subrange;

use crate::error::DukascopyError;
use crate::models::Tick;
use crate::parser::{decode_record, DukascopyParser, RECORD_LEN};

verus! {

/// How the answering tick is picked from an archive.
#[derive(Debug, Clone, Copy, PartialEq, Eq, Structural)]
pub enum Selection {
    /// The tick nearest to this offset, in milliseconds from the top of the hour.
    Closest { target_ms: u32 },
    /// The last tick of the archive.
    Last,
}

/// The number of whole records in the payload.
pub open spec fn record_count(payload: Seq<u8>) -> int {
    payload.len() as int / 20
}

/// The bytes of record `i`.
pub open spec fn record_at(payload: Seq<u8>, i: int) -> Seq<u8> {
    payload.subrange(20 * i, 20 * i + 20)
}

/// The tick that record `i` decodes to, or `None` where it is malformed.
pub open spec fn tick_at(payload: Seq<u8>, i: int) -> Option<Tick> {
    decode_record(record_at(payload, i))
}

/// Every record of the payload decodes.
pub open spec fn all_decode(payload: Seq<u8>) -> bool {
    forall|i: int| 0 <= i < record_count(payload) ==> (#[trigger] tick_at(payload, i)) is Some
}

/// A scan for `target` ends at record `i`: the record is malformed, or its
/// tick lies exactly on the target.
pub open spec fn ends_scan(payload: Seq<u8>, target: int, i: int) -> bool {
    match tick_at(payload, i) {
        Some(tick) => tick.offset_ms == target,
        None => true,
    }
}

/// Record `i` is the first at which a scan for `target` ends.
pub open spec fn first_end(payload: Seq<u8>, target: int, i: int) -> bool {
    &&& 0 <= i < record_count(payload)
    &&& ends_scan(payload, target, i)
    &&& forall|j: int| 0 <= j < i ==> !#[trigger] ends_scan(payload, target, j)
}

/// Among the first `count` records, all of which decode, record `i` is nearest
/// to `target`, and the first of those that are equally near.
pub open spec fn first_nearest(payload: Seq<u8>, target: int, count: int, i: int) -> bool {
    &&& 0 <= i < count
    &&& forall|j: int|
        0 <= j < count ==> (#[trigger] tick_at(payload, j)).unwrap().distance(target) >= tick_at(
            payload,
            i,
        ).unwrap().distance(target)
    &&& forall|j: int|
        0 <= j < i ==> (#[trigger] tick_at(payload, j)).unwrap().distance(target) > tick_at(
            payload,
            i,
        ).unwrap().distance(target)
}

/// The tick of the archive that is nearest to `target`.
///
/// A payload that is not a whole number of records is `InvalidTickData`. The
/// records are read in order up to the first that is malformed, which is
/// `InvalidTickData`, or exactly on the target, which is the answer. Where the
/// scan reaches the end, an empty archive is `DataNotFound`, and otherwise the
/// answer is the first of the nearest ticks.
pub open spec fn closest_tick(payload: Seq<u8>, target: int) -> Result<Tick, DukascopyError> {
    if payload.len() % 20 != 0 {
        Err(DukascopyError::InvalidTickData)
    } else if exists|i: int| first_end(payload, target, i) {
        match tick_at(payload, choose|i: int| first_end(payload, target, i)) {
            Some(tick) => Ok(tick),
            None => Err(DukascopyError::InvalidTickData),
        }
    } else if payload.len() == 0 {
        Err(DukascopyError::DataNotFound)
    } else {
        Ok(
            tick_at(
                payload,
                choose|i: int| first_nearest(payload, target, record_count(payload), i),
            ).unwrap(),
        )
    }
}

/// The last tick of the archive.
///
/// A payload that is not a whole number of records, or that holds a malformed
/// record, is `InvalidTickData`; an empty archive is `DataNotFound`.
pub open spec fn last_tick(payload: Seq<u8>) -> Result<Tick, DukascopyError> {
    if payload.len() % 20 != 0 || !all_decode(payload) {
        Err(DukascopyError::InvalidTickData)
    } else if payload.len() == 0 {
        Err(DukascopyError::DataNotFound)
    } else {
        Ok(tick_at(payload, record_count(payload) - 1).unwrap())
    }
}

/// The tick that answers under the given selection.
pub open spec fn selected_tick(payload: Seq<u8>, selection: Selection) -> Result<
    Tick,
    DukascopyError,
> {
    match selection {
        Selection::Closest { target_ms } => closest_tick(payload, target_ms as int),
        Selection::Last => last_tick(payload),
    }
}

/// A payload that is not a whole number of records is rejected under either
/// selection, whatever its records hold.
pub proof fn lemma_partial_record_is_rejected(payload: Seq<u8>, selection: Selection)
    requires
        payload.len() % 20 != 0,
    ensures
        selected_tick(payload, selection) == Err::<Tick, DukascopyError>(
            DukascopyError::InvalidTickData,
        ),
{
}

/// A scan ends first at one record only.
pub proof fn lemma_first_end_is_unique(payload: Seq<u8>, target: int, i: int, j: int)
    requires
        first_end(payload, target, i),
        first_end(payload, target, j),
    ensures
        i == j,
{
    if i < j {
        assert(!ends_scan(payload, target, i));
    } else if j < i {
        assert(!ends_scan(payload, target, j));
    }
}

/// Only one record is the first of the nearest.
pub proof fn lemma_first_nearest_is_unique(
    payload: Seq<u8>,
    target: int,
    count: int,
    i: int,
    j: int,
)
    requires
        first_nearest(payload, target, count, i),
        first_nearest(payload, target, count, j),
    ensures
        i == j,
{
    let di = tick_at(payload, i).unwrap().distance(target);
    let dj = tick_at(payload, j).unwrap().distance(target);
    if i < j {
        assert(di > dj);
        assert(di >= dj && dj >= di);
    } else if j < i {
        assert(dj > di);
        assert(di >= dj && dj >= di);
    }
}

/// The first exact match wins: where every record before `i` decodes to a
/// tick off the target and record `i` decodes to a tick exactly on it, that
/// tick is the answer, whatever the records after it hold.
pub proof fn lemma_first_exact_match_wins(payload: Seq<u8>, target: int, i: int)
    requires
        payload.len() % 20 == 0,
        0 <= i < record_count(payload),
        forall|j: int|
            0 <= j < i ==> (#[trigger] tick_at(payload, j)) is Some && tick_at(
                payload,
                j,
            ).unwrap().offset_ms != target,
        tick_at(payload, i) is Some,
        tick_at(payload, i).unwrap().offset_ms == target,
    ensures
        closest_tick(payload, target) == Ok::<Tick, DukascopyError>(tick_at(payload, i).unwrap()),
{
    assert forall|j: int| 0 <= j < i implies !#[trigger] ends_scan(payload, target, j) by {
        assert(tick_at(payload, j) is Some);
    }
    assert(first_end(payload, target, i));
    let chosen = choose|k: int| first_end(payload, target, k);
    lemma_first_end_is_unique(payload, target, i, chosen);
}

/// Where every record decodes and none lies exactly on the target, the answer
/// is a tick of the archive than which none is nearer, and every tick before
/// it is farther from the target.
pub proof fn lemma_closest_tick_is_nearest(payload: Seq<u8>, target: int)
    requires
        payload.len() % 20 == 0,
        payload.len() > 0,
        all_decode(payload),
        forall|j: int|
            0 <= j < record_count(payload) ==> (#[trigger] tick_at(payload, j)).unwrap().offset_ms
                != target,
    ensures
        exists|i: int|
            first_nearest(payload, target, record_count(payload), i) && closest_tick(
                payload,
                target,
            ) == Ok::<Tick, DukascopyError>(tick_at(payload, i).unwrap()),
{
    let count = record_count(payload);
    assert forall|i: int| !first_end(payload, target, i) by {
        if 0 <= i < count {
            assert(tick_at(payload, i) is Some);
            assert(!ends_scan(payload, target, i));
        }
    }
    lemma_nearest_exists(payload, target, count);
    let chosen = choose|i: int| first_nearest(payload, target, count, i);
    assert(first_nearest(payload, target, count, chosen));
}

/// Among any positive number of decoded records one is the first of the nearest.
proof fn lemma_nearest_exists(payload: Seq<u8>, target: int, count: int)
    requires
        count > 0,
    ensures
        exists|i: int| first_nearest(payload, target, count, i),
    decreases count,
{
    if count == 1 {
        assert(first_nearest(payload, target, 1, 0));
    } else {
        let last = count - 1;
        lemma_nearest_exists(payload, target, last);
        let before = choose|i: int| first_nearest(payload, target, last, i);
        if tick_at(payload, last).unwrap().distance(target) < tick_at(
            payload,
            before,
        ).unwrap().distance(target) {
            assert(first_nearest(payload, target, count, last));
        } else {
            assert(first_nearest(payload, target, count, before));
        }
    }
}

/// The distance between a tick's offset and the target.
fn distance_ms(offset_ms: u32, target_ms: u32) -> (distance: u32)
    ensures
        distance == (if offset_ms >= target_ms {
            offset_ms - target_ms
        } else {
            target_ms - offset_ms
        }),
{
    if offset_ms >= target_ms {
        offset_ms - target_ms
    } else {
        target_ms - offset_ms
    }
}

/// Scans the archive for the tick nearest to `target_ms`.
pub fn select_closest(payload: &[u8], target_ms: u32) -> (r: Result<Tick, DukascopyError>)
    ensures
        r == closest_tick(payload@, target_ms as int),
{
    if DukascopyParser::validate_decompressed_data(payload).is_err() {
        return Err(DukascopyError::InvalidTickData);
    }
    let count = payload.len() / RECORD_LEN;
    let ghost target = target_ms as int;
    let mut best: Option<Tick> = None;
    let mut best_distance: u32 = 0;
    let ghost mut best_index: int = 0;
    let mut i: usize = 0;
    while i < count
        invariant
            i <= count,
            count == record_count(payload@),
            payload@.len() == 20 * count,
            payload@.len() <= usize::MAX,
            target == target_ms as int,
            forall|j: int| 0 <= j < i ==> !#[trigger] ends_scan(payload@, target, j),
            i == 0 ==> best is None,
            i > 0 ==> first_nearest(payload@, target, i as int, best_index) && best == tick_at(
                payload@,
                best_index,
            ) && best is Some && best_distance == best.unwrap().distance(target),
        decreases count - i,
    {
        let record = slice_subrange(payload, RECORD_LEN * i, RECORD_LEN * i + RECORD_LEN);
        assert(record@ == record_at(payload@, i as int));
        match DukascopyParser::parse_tick(record) {
            Err(_) => {
                proof {
                    assert(first_end(payload@, target, i as int));
                    let chosen = choose|k: int| first_end(payload@, target, k);
                    lemma_first_end_is_unique(payload@, target, i as int, chosen);
                }
                return Err(DukascopyError::InvalidTickData);
            },
            Ok(tick) => {
                let distance = distance_ms(tick.offset_ms, target_ms);
                if distance == 0 {
                    proof {
                        assert(first_end(payload@, target, i as int));
                        let chosen = choose|k: int| first_end(payload@, target, k);
                        lemma_first_end_is_unique(payload@, target, i as int, chosen);
                    }
                    return Ok(tick);
                }
                let nearer = match best {
                    Some(_) => distance < best_distance,
                    None => true,
                };
                if nearer {
                    best = Some(tick);
                    best_distance = distance;
                    proof {
                        best_index = i as int;
                    }
                }
                assert(tick_at(payload@, i as int) == Some(tick));
                assert(first_nearest(payload@, target, i + 1, best_index));
            },
        }
        i += 1;
    }
    proof {
        assert forall|k: int| !first_end(payload@, target, k) by {
            if 0 <= k < count {
                assert(!ends_scan(payload@, target, k));
            }
        }
        if count > 0 {
            let chosen = choose|k: int| first_nearest(payload@, target, count as int, k);
            lemma_first_nearest_is_unique(payload@, target, count as int, best_index, chosen);
        }
    }
    match best {
        Some(tick) => Ok(tick),
        None => Err(DukascopyError::DataNotFound),
    }
}

/// Decodes every record of the archive and hands back the last tick.
pub fn select_last(payload: &[u8]) -> (r: Result<Tick, DukascopyError>)
    ensures
        r == last_tick(payload@),
{
    if DukascopyParser::validate_decompressed_data(payload).is_err() {
        return Err(DukascopyError::InvalidTickData);
    }
    let count = payload.len() / RECORD_LEN;
    let mut last: Option<Tick> = None;
    let mut i: usize = 0;
    while i < count
        invariant
            i <= count,
            count == record_count(payload@),
            payload@.len() == 20 * count,
            payload@.len() <= usize::MAX,
            forall|j: int| 0 <= j < i ==> (#[trigger] tick_at(payload@, j)) is Some,
            i == 0 ==> last is None,
            i > 0 ==> last == tick_at(payload@, i - 1),
        decreases count - i,
    {
        let record = slice_subrange(payload, RECORD_LEN * i, RECORD_LEN * i + RECORD_LEN);
        assert(record@ == record_at(payload@, i as int));
        match DukascopyParser::parse_tick(record) {
            Err(_) => {
                assert(tick_at(payload@, i as int) is None);
                return Err(DukascopyError::InvalidTickData);
            },
            Ok(tick) => {
                last = Some(tick);
            },
        }
        i += 1;
    }
    match last {
        Some(tick) => Ok(tick),
        None => Err(DukascopyError::DataNotFound),
    }
}

/// Picks the answering tick from the archive under the given selection.
pub fn select_tick(payload: &[u8], selection: Selection) -> (r: Result<Tick, DukascopyError>)
    ensures
        r == selected_tick(payload@, selection),
{
    match selection {
        Selection::Closest { target_ms } => select_closest(payload, target_ms),
        Selection::Last => select_last(payload),
    }
}

} // verus!
