//! The rate resolver.
//!
//! A resolution has two halves around the transfer of one archive. The first
//! checks the pair and works out which archive answers the request and how the
//! tick is picked from it. The second picks the tick and reports its rate. The
//! step functions join the two with the client, so that the caller only
//! performs the download that a step asks for.

use vstd::prelude::*;
use vstd::string::StringExecFns;

use crate::cache::{distinct_keys, Entry, CACHE_CAPACITY};
use crate::calendar::{
    archive_hour, archive_hour_start, calendar_date, closing_hour, closing_hour_of_day, day_number,
    days_from_monday, hour_of_day, is_weekend, lemma_weekday_answers_with_own_hour,
    lemma_weekend_answers_with_preceding_friday, representable, target_ms, target_offset, utc_date,
    utc_hour, weekday_from_monday, SATURDAY,
};
use crate::client::{
    fetch_outcome, lemma_delivered_archive_is_served_from_cache, DukascopyClient, FetchAction,
    FetchActionModel, FetchEvent,
};
use crate::error::{DukascopyError, ErrorModel};
use crate::models::{
    CurrencyExchange, CurrencyExchangeModel, CurrencyPair, CurrencyPairModel, Rate, Tick,
    RATE_DIGITS,
};
use crate::pricing::{mid_rate, mid_rate_units};
use crate::selection::{closest_tick, last_tick, select_tick, selected_tick, Selection};
use crate::url::{archive_url, archive_url_text, UtcHour};

verus! {

/// The archive that answers a request, and how the tick is picked from it.
#[derive(Debug, PartialEq, Eq)]
pub struct ArchiveRequest {
    /// The address of the archive.
    pub url: String,
    /// The top of the archive's hour, in milliseconds since the Unix epoch.
    pub hour_start: i64,
    /// How the answering tick is picked.
    pub selection: Selection,
}

/// The mathematical value of an [`ArchiveRequest`].
pub struct ArchiveRequestModel {
    pub url: Seq<char>,
    pub hour_start: i64,
    pub selection: Selection,
}

impl View for ArchiveRequest {
    type V = ArchiveRequestModel;

    open spec fn view(&self) -> ArchiveRequestModel {
        ArchiveRequestModel { url: self.url@, hour_start: self.hour_start, selection: self.selection }
    }
}

/// Where a resolution stands after a step.
#[derive(Debug, PartialEq, Eq)]
pub enum ServiceStep {
    /// The caller has to request this address and call again with what came back.
    Fetch(String),
    /// The resolution is over.
    Done(Result<CurrencyExchange, DukascopyError>),
}

/// The mathematical value of a [`ServiceStep`].
pub enum ServiceStepModel {
    Fetch(Seq<char>),
    Done(Result<CurrencyExchangeModel, ErrorModel>),
}

/// The mathematical value of the outcome of a resolution.
pub open spec fn outcome_model(outcome: Result<CurrencyExchange, DukascopyError>) -> Result<
    CurrencyExchangeModel,
    ErrorModel,
> {
    match outcome {
        Ok(exchange) => Ok(exchange@),
        Err(error) => Err(error@),
    }
}

impl View for ServiceStep {
    type V = ServiceStepModel;

    open spec fn view(&self) -> ServiceStepModel {
        match self {
            ServiceStep::Fetch(url) => ServiceStepModel::Fetch(url@),
            ServiceStep::Done(outcome) => ServiceStepModel::Done(outcome_model(*outcome)),
        }
    }
}

/// The detail of the error for an instant that the calendar or the
/// millisecond count cannot hold.
pub open spec fn out_of_range_text() -> Seq<char> {
    "Timestamp out of range"@
}

/// The error for an instant that the calendar or the millisecond count cannot hold.
pub open spec fn out_of_range() -> ErrorModel {
    ErrorModel::Unknown(out_of_range_text())
}

/// How the tick is picked for a request at the instant: the last tick on a
/// weekend, and otherwise the one nearest to the instant's minute and second.
pub open spec fn selection_for(timestamp: int) -> Selection {
    if is_weekend(timestamp) {
        Selection::Last
    } else {
        Selection::Closest { target_ms: target_offset(timestamp) as u32 }
    }
}

/// The request for the archive of the hour that starts at `hour`, or `None`
/// where the instant is not representable or the calendar has no date for it.
pub open spec fn request_at(pair: CurrencyPairModel, hour: int, selection: Selection) -> Option<
    ArchiveRequestModel,
> {
    if !representable(hour) {
        None
    } else {
        match utc_date(hour as i64) {
            Some((year, month, day)) => Some(
                ArchiveRequestModel {
                    url: archive_url_text(
                        pair.from,
                        pair.to,
                        UtcHour { year, month, day, hour: hour_of_day(hour) as u32 },
                    ),
                    hour_start: hour as i64,
                    selection,
                },
            ),
            None => None,
        }
    }
}

/// The request that answers a resolution at `timestamp`.
pub open spec fn exchange_rate_request(pair: CurrencyPairModel, timestamp: i64) -> Option<
    ArchiveRequestModel,
> {
    request_at(pair, archive_hour(timestamp as int), selection_for(timestamp as int))
}

/// The request for the closing tick of the day that holds the instant `date`.
pub open spec fn last_tick_request(pair: CurrencyPairModel, date: i64) -> Option<
    ArchiveRequestModel,
> {
    request_at(pair, closing_hour_of_day(day_number(date as int)), Selection::Last)
}

/// What is reported for a tick of the archive whose hour starts at
/// `hour_start`: the rounded mid price, the instant of the tick and its
/// volumes. An instant beyond the millisecond count is out of range.
pub open spec fn tick_exchange(pair: CurrencyPairModel, hour_start: i64, tick: Tick) -> Result<
    CurrencyExchangeModel,
    ErrorModel,
> {
    if hour_start + tick.offset_ms > i64::MAX {
        Err(out_of_range())
    } else {
        Ok(
            CurrencyExchangeModel {
                pair,
                rate: Rate {
                    mantissa: mid_rate_units(tick.ask_raw, tick.bid_raw) as u64,
                    scale: RATE_DIGITS,
                },
                timestamp: (hour_start + tick.offset_ms) as i64,
                bid_volume_bits: tick.bid_volume_bits,
                ask_volume_bits: tick.ask_volume_bits,
            },
        )
    }
}

/// What a delivered archive resolves to under a request.
pub open spec fn archive_exchange(
    pair: CurrencyPairModel,
    request: ArchiveRequestModel,
    payload: Seq<u8>,
) -> Result<CurrencyExchangeModel, ErrorModel> {
    match selected_tick(payload, request.selection) {
        Ok(tick) => tick_exchange(pair, request.hour_start, tick),
        Err(error) => Err(error@),
    }
}

/// The step that follows from what the client decided.
pub open spec fn step_for(
    pair: CurrencyPairModel,
    request: ArchiveRequestModel,
    action: FetchActionModel,
) -> ServiceStepModel {
    match action {
        FetchActionModel::Download => ServiceStepModel::Fetch(request.url),
        FetchActionModel::Deliver(payload) => ServiceStepModel::Done(
            archive_exchange(pair, request, payload),
        ),
        FetchActionModel::Fail(error) => ServiceStepModel::Done(Err(error)),
    }
}

/// One step towards a request: without a request the resolution is over, the
/// instant being out of range; with one, the client takes its step for the
/// request's address, and the service step follows from the client's action.
pub open spec fn request_step(
    before: Seq<Entry>,
    pair: CurrencyPairModel,
    request: Option<ArchiveRequestModel>,
    event: FetchEvent,
    step: ServiceStepModel,
    after: Seq<Entry>,
) -> bool {
    match request {
        Some(request) => exists|action: FetchActionModel|
            #[trigger] fetch_outcome(before, request.url, event, action, after) && step
                == step_for(pair, request, action),
        None => step == ServiceStepModel::Done(Err(out_of_range())) && after == before,
    }
}

/// One step of a resolution at `timestamp`: a pair with a code that is not
/// three characters long ends it at once, with the cache untouched and nothing
/// to fetch; otherwise the step is the one towards the request for the instant.
pub open spec fn exchange_rate_step(
    before: Seq<Entry>,
    pair: CurrencyPairModel,
    timestamp: i64,
    event: FetchEvent,
    step: ServiceStepModel,
    after: Seq<Entry>,
) -> bool {
    if !pair.has_valid_codes() {
        step == ServiceStepModel::Done(Err(ErrorModel::InvalidCurrencyCode)) && after == before
    } else {
        request_step(before, pair, exchange_rate_request(pair, timestamp), event, step, after)
    }
}

/// A pair with a code that is not three characters long ends the resolution
/// at once: the step is the error and never a fetch, and the cache stays as
/// it was.
pub proof fn lemma_invalid_code_fails_before_any_fetch(
    before: Seq<Entry>,
    pair: CurrencyPairModel,
    timestamp: i64,
    event: FetchEvent,
    step: ServiceStepModel,
    after: Seq<Entry>,
)
    requires
        !pair.has_valid_codes(),
        exchange_rate_step(before, pair, timestamp, event, step, after),
    ensures
        step == ServiceStepModel::Done(Err(ErrorModel::InvalidCurrencyCode)),
        !(step is Fetch),
        after == before,
{
}

/// A weekend resolves with the close of the Friday just before it: the
/// archive is that of 23:00 on that Friday, one day back from a Saturday and
/// two from a Sunday, and the answer is its last tick in archive order.
pub proof fn lemma_weekend_resolves_with_friday_close(
    pair: CurrencyPairModel,
    timestamp: i64,
    payload: Seq<u8>,
)
    requires
        is_weekend(timestamp as int),
        exchange_rate_request(pair, timestamp) is Some,
    ensures
        ({
            let request = exchange_rate_request(pair, timestamp).unwrap();
            &&& request.selection == Selection::Last
            &&& days_from_monday(request.hour_start as int) == 4
            &&& hour_of_day(request.hour_start as int) == 23
            &&& request.hour_start == closing_hour_of_day(day_number(request.hour_start as int))
            &&& days_from_monday(timestamp as int) == 5 ==> day_number(request.hour_start as int)
                == day_number(timestamp as int) - 1
            &&& days_from_monday(timestamp as int) == 6 ==> day_number(request.hour_start as int)
                == day_number(timestamp as int) - 2
            &&& archive_exchange(pair, request, payload) == match last_tick(payload) {
                Ok(tick) => tick_exchange(pair, request.hour_start, tick),
                Err(error) => Err(error@),
            }
        }),
{
    lemma_weekend_answers_with_preceding_friday(timestamp as int);
}

/// On a weekday the archive is that of the instant's own hour, and the answer
/// is the tick nearest to the instant's minute and second.
pub proof fn lemma_weekday_resolves_with_closest_tick(
    pair: CurrencyPairModel,
    timestamp: i64,
    payload: Seq<u8>,
)
    requires
        !is_weekend(timestamp as int),
        exchange_rate_request(pair, timestamp) is Some,
    ensures
        ({
            let request = exchange_rate_request(pair, timestamp).unwrap();
            &&& request.hour_start <= timestamp < request.hour_start + 3_600_000
            &&& request.hour_start % 3_600_000 == 0
            &&& archive_exchange(pair, request, payload) == match closest_tick(
                payload,
                target_offset(timestamp as int),
            ) {
                Ok(tick) => tick_exchange(pair, request.hour_start, tick),
                Err(error) => Err(error@),
            }
        }),
{
    lemma_weekday_answers_with_own_hour(timestamp as int);
}

/// The reported instant is the start of the archive's hour plus the tick's
/// offset, so a tick with an offset below one hour is reported within the
/// archive's hour.
pub proof fn lemma_reported_instant_lies_in_the_hour(
    pair: CurrencyPairModel,
    hour_start: i64,
    tick: Tick,
)
    requires
        tick.offset_ms < 3_600_000,
        hour_start + 3_600_000 <= i64::MAX,
    ensures
        tick_exchange(pair, hour_start, tick) matches Ok(exchange) && hour_start
            <= exchange.timestamp < hour_start + 3_600_000 && exchange.timestamp == hour_start
            + tick.offset_ms,
{
}

/// What came back from the provider ends the resolution: a step that was
/// given a response or a transport failure never asks for another fetch.
pub proof fn lemma_answer_ends_the_resolution(
    before: Seq<Entry>,
    pair: CurrencyPairModel,
    timestamp: i64,
    event: FetchEvent,
    step: ServiceStepModel,
    after: Seq<Entry>,
)
    requires
        !(event is Start),
        exchange_rate_step(before, pair, timestamp, event, step, after),
    ensures
        step is Done,
{
}

/// A weekend is answered with the Friday's close and never refused: no step
/// of a resolution ends in `MarketClosed`.
pub proof fn lemma_market_closed_is_never_returned(
    before: Seq<Entry>,
    pair: CurrencyPairModel,
    timestamp: i64,
    event: FetchEvent,
    step: ServiceStepModel,
    after: Seq<Entry>,
)
    requires
        exchange_rate_step(before, pair, timestamp, event, step, after),
    ensures
        step != ServiceStepModel::Done(Err(ErrorModel::MarketClosed)),
{
}

/// Once a resolution has come to a rate, a resolution for the same pair and
/// the same archive hour needs no fetch: started anew, it is over in one step,
/// and for the same instant it comes to the same rate.
pub proof fn lemma_resolved_hour_needs_no_second_fetch(
    before: Seq<Entry>,
    pair: CurrencyPairModel,
    first: i64,
    second: i64,
    event: FetchEvent,
    exchange: CurrencyExchangeModel,
    after: Seq<Entry>,
    step: ServiceStepModel,
    later: Seq<Entry>,
)
    requires
        distinct_keys(before),
        before.len() <= CACHE_CAPACITY,
        archive_hour(first as int) == archive_hour(second as int),
        exchange_rate_step(before, pair, first, event, ServiceStepModel::Done(Ok(exchange)), after),
        exchange_rate_step(after, pair, second, FetchEvent::Start, step, later),
    ensures
        step is Done,
        first == second ==> step == ServiceStepModel::Done(Ok(exchange)),
{
    let done = ServiceStepModel::Done(Ok(exchange));
    let request = exchange_rate_request(pair, first).unwrap();
    let action = choose|action: FetchActionModel|
        #[trigger] fetch_outcome(before, request.url, event, action, after) && done == step_for(
            pair,
            request,
            action,
        );
    assert(action is Deliver);
    let payload = action->Deliver_0;
    let again = exchange_rate_request(pair, second).unwrap();
    assert(again.url == request.url);
    let next = choose|next: FetchActionModel|
        #[trigger] fetch_outcome(after, again.url, FetchEvent::Start, next, later) && step
            == step_for(pair, again, next);
    lemma_delivered_archive_is_served_from_cache(
        before,
        request.url,
        event,
        payload,
        after,
        next,
        later,
    );
}

/// The resolver of exchange rates.
pub struct DukascopyFxService;

impl DukascopyFxService {
    /// The request for the archive of the hour that starts at `hour`.
    fn request_for_hour(pair: &CurrencyPair, hour: Option<i64>, selection: Selection) -> (r: Result<
        ArchiveRequest,
        DukascopyError,
    >)
        ensures
            match r {
                Ok(request) => hour is Some && request_at(pair@, hour.unwrap() as int, selection)
                    == Some(request@),
                Err(error) => error@ == out_of_range() && (hour is None || request_at(
                    pair@,
                    hour.unwrap() as int,
                    selection,
                ) is None),
            },
    {
        let date = match hour {
            Some(start) => calendar_date(start),
            None => None,
        };
        match (hour, date) {
            (Some(start), Some((year, month, day))) => {
                let url = archive_url(pair, UtcHour { year, month, day, hour: utc_hour(start) });
                Ok(ArchiveRequest { url, hour_start: start, selection })
            },
            _ => Err(DukascopyError::Unknown(String::from_str("Timestamp out of range"))),
        }
    }

    /// Works out the archive that answers a resolution at `timestamp`.
    ///
    /// A code that is not three characters long is `InvalidCurrencyCode`. A
    /// weekday asks for the archive of the instant's hour and the tick nearest
    /// to its minute and second; a weekend asks for the last tick of the
    /// preceding Friday's closing hour.
    pub fn plan(pair: &CurrencyPair, timestamp: i64) -> (r: Result<ArchiveRequest, DukascopyError>)
        ensures
            match r {
                Ok(request) => pair@.has_valid_codes() && exchange_rate_request(pair@, timestamp)
                    == Some(request@),
                Err(error) => if pair@.has_valid_codes() {
                    exchange_rate_request(pair@, timestamp) is None && error@ == out_of_range()
                } else {
                    error@ == ErrorModel::InvalidCurrencyCode
                },
            },
    {
        if !pair.has_valid_codes() {
            return Err(DukascopyError::InvalidCurrencyCode);
        }
        let selection = if weekday_from_monday(timestamp) >= SATURDAY {
            Selection::Last
        } else {
            Selection::Closest { target_ms: target_ms(timestamp) }
        };
        Self::request_for_hour(pair, archive_hour_start(timestamp), selection)
    }

    /// Works out the archive that holds the closing tick of the day of `date`.
    /// The pair is taken as it is.
    pub fn plan_last_tick_of_day(pair: &CurrencyPair, date: i64) -> (r: Result<
        ArchiveRequest,
        DukascopyError,
    >)
        ensures
            match r {
                Ok(request) => last_tick_request(pair@, date) == Some(request@),
                Err(error) => last_tick_request(pair@, date) is None && error@ == out_of_range(),
            },
    {
        Self::request_for_hour(pair, closing_hour(date), Selection::Last)
    }

    /// Reports a tick of the archive whose hour starts at `hour_start`.
    pub fn exchange_from_tick(pair: &CurrencyPair, hour_start: i64, tick: Tick) -> (r: Result<
        CurrencyExchange,
        DukascopyError,
    >)
        ensures
            outcome_model(r) == tick_exchange(pair@, hour_start, tick),
    {
        match hour_start.checked_add(tick.offset_ms as i64) {
            Some(timestamp) => Ok(
                CurrencyExchange {
                    pair: pair.clone(),
                    rate: mid_rate(tick.ask_raw, tick.bid_raw),
                    timestamp,
                    bid_volume_bits: tick.bid_volume_bits,
                    ask_volume_bits: tick.ask_volume_bits,
                },
            ),
            None => Err(DukascopyError::Unknown(String::from_str("Timestamp out of range"))),
        }
    }

    /// Resolves a delivered archive: picks the tick that the request asks for
    /// and reports it.
    pub fn resolve(pair: &CurrencyPair, request: &ArchiveRequest, payload: &[u8]) -> (r: Result<
        CurrencyExchange,
        DukascopyError,
    >)
        ensures
            outcome_model(r) == archive_exchange(pair@, request@, payload@),
    {
        match select_tick(payload, request.selection) {
            Ok(tick) => Self::exchange_from_tick(pair, request.hour_start, tick),
            Err(error) => Err(error),
        }
    }

    /// Takes the client's step for a request and turns its action into the
    /// step of the resolution.
    fn advance(
        client: &mut DukascopyClient,
        pair: &CurrencyPair,
        request: Result<ArchiveRequest, DukascopyError>,
        event: FetchEvent,
    ) -> (step: ServiceStep)
        requires
            old(client).wf(),
            request matches Err(error) ==> error@ == out_of_range(),
        ensures
            final(client).wf(),
            request_step(
                old(client)@,
                pair@,
                match request {
                    Ok(request) => Some(request@),
                    Err(_) => None,
                },
                event,
                step@,
                final(client)@,
            ),
    {
        match request {
            Ok(request) => {
                let action = client.get_cached_data(request.url.as_str(), event);
                let ghost decided = action@;
                let step = match action {
                    FetchAction::Download => ServiceStep::Fetch(request.url),
                    FetchAction::Deliver(payload) => ServiceStep::Done(
                        Self::resolve(pair, &request, payload.as_slice()),
                    ),
                    FetchAction::Fail(error) => ServiceStep::Done(Err(error)),
                };
                assert(fetch_outcome(old(client)@, request@.url, event, decided, client@));
                assert(step@ == step_for(pair@, request@, decided));
                step
            },
            Err(error) => ServiceStep::Done(Err(error)),
        }
    }

    /// One step of resolving the rate of `pair` at `timestamp`, given in
    /// milliseconds since the Unix epoch.
    ///
    /// The first call passes `FetchEvent::Start`. Where the step is
    /// `ServiceStep::Fetch`, the caller requests that address and calls again
    /// with the same pair and timestamp and with what came back.
    pub fn get_exchange_rate(
        client: &mut DukascopyClient,
        pair: &CurrencyPair,
        timestamp: i64,
        event: FetchEvent,
    ) -> (step: ServiceStep)
        requires
            old(client).wf(),
        ensures
            final(client).wf(),
            exchange_rate_step(old(client)@, pair@, timestamp, event, step@, final(client)@),
    {
        match Self::plan(pair, timestamp) {
            Err(DukascopyError::InvalidCurrencyCode) => ServiceStep::Done(
                Err(DukascopyError::InvalidCurrencyCode),
            ),
            request => Self::advance(client, pair, request, event),
        }
    }

    /// One step of resolving the closing tick of the day that holds the
    /// instant `date`: the last tick of the archive of 23:00. The steps go as
    /// those of [`DukascopyFxService::get_exchange_rate`].
    pub fn get_last_tick_of_day(
        client: &mut DukascopyClient,
        pair: &CurrencyPair,
        date: i64,
        event: FetchEvent,
    ) -> (step: ServiceStep)
        requires
            old(client).wf(),
        ensures
            final(client).wf(),
            request_step(
                old(client)@,
                pair@,
                last_tick_request(pair@, date),
                event,
                step@,
                final(client)@,
            ),
    {
        let request = Self::plan_last_tick_of_day(pair, date);
        Self::advance(client, pair, request, event)
    }
}

} // verus!
