//! The fetch client: what to do for an archive address, and what to make of
//! the provider's answer.
//!
//! The client does no transfer itself. It is a step function over its cache:
//! asked for an address, it either delivers the cached payload or asks for a
//! download; given the response, it maps a failure status to an error, or
//! decompresses the body, caches the payload and delivers it.

use std::io::Cursor;

use vstd::prelude::*;

use crate::cache::{
    distinct_keys, lemma_lookup_after_store, lemma_touched_keeps_entries, lookup, stored, touched,
    ArchiveCache, Entry, CACHE_CAPACITY,
};
use crate::error::{DukascopyError, ErrorModel};

verus! {

/// What the caller reports to the client about an archive address.
#[derive(Debug, PartialEq, Eq)]
pub enum FetchEvent {
    /// Nothing was transferred yet.
    Start,
    /// The provider answered.
    Response {
        /// The status code.
        status: u16,
        /// The status as text, for the error where the code has no variant of its own.
        status_text: String,
        /// The body as it came.
        body: Vec<u8>,
    },
    /// The request did not come to an answer.
    TransportFailure { detail: String },
}

/// What the client decides.
#[derive(Debug, PartialEq, Eq)]
pub enum FetchAction {
    /// The caller has to request the address and report what came back.
    Download,
    /// The decompressed archive.
    Deliver(Vec<u8>),
    /// The fetch failed.
    Fail(DukascopyError),
}

/// The mathematical value of a [`FetchAction`].
pub enum FetchActionModel {
    Download,
    Deliver(Seq<u8>),
    Fail(ErrorModel),
}

impl View for FetchAction {
    type V = FetchActionModel;

    open spec fn view(&self) -> FetchActionModel {
        match self {
            FetchAction::Download => FetchActionModel::Download,
            FetchAction::Deliver(payload) => FetchActionModel::Deliver(payload@),
            FetchAction::Fail(error) => FetchActionModel::Fail(error@),
        }
    }
}

/// The status is one of success, 200 to 299.
pub open spec fn is_success(status: u16) -> bool {
    200 <= status <= 299
}

/// The error that a status other than success stands for.
pub open spec fn status_failure(status: u16, status_text: Seq<char>) -> ErrorModel {
    if status == 404 {
        ErrorModel::DataNotFound
    } else if status == 429 {
        ErrorModel::RateLimitExceeded
    } else if status == 401 {
        ErrorModel::Unauthorized
    } else if status == 403 {
        ErrorModel::Forbidden
    } else if status == 400 {
        ErrorModel::InvalidRequest
    } else {
        ErrorModel::HttpError(status_text)
    }
}

/// The error that a response status stands for, or `None` for a success.
pub fn classify_status(status: u16, status_text: String) -> (failure: Option<DukascopyError>)
    ensures
        match failure {
            Some(error) => !is_success(status) && error@ == status_failure(status, status_text@),
            None => is_success(status),
        },
{
    if 200 <= status && status <= 299 {
        None
    } else if status == 404 {
        Some(DukascopyError::DataNotFound)
    } else if status == 429 {
        Some(DukascopyError::RateLimitExceeded)
    } else if status == 401 {
        Some(DukascopyError::Unauthorized)
    } else if status == 403 {
        Some(DukascopyError::Forbidden)
    } else if status == 400 {
        Some(DukascopyError::InvalidRequest)
    } else {
        Some(DukascopyError::HttpError(status_text))
    }
}

/// `lzma_rs::error::Error`, held as an opaque value.
#[verifier::external_type_specification]
#[verifier::external_body]
pub struct ExLzmaError(lzma_rs::error::Error);

/// What `lzma_rs::lzma_decompress` makes of a compressed stream: the
/// decompressed bytes, or `None` where it reports an error.
pub uninterp spec fn lzma_decompressed(compressed: Seq<u8>) -> Option<Seq<u8>>;

/// `lzma_rs::lzma_decompress` from a cursor over `compressed` into a fresh
/// vector. The outcome depends on the bytes alone and carries the name above.
#[verifier::external_body]
fn lzma_decompress(compressed: &[u8]) -> (r: Result<Vec<u8>, lzma_rs::error::Error>)
    ensures
        match r {
            Ok(payload) => lzma_decompressed(compressed@) == Some(payload@),
            Err(_) => lzma_decompressed(compressed@) is None,
        },
{
    let mut payload = Vec::new();
    match lzma_rs::lzma_decompress(&mut Cursor::new(compressed), &mut payload) {
        Ok(()) => Ok(payload),
        Err(error) => Err(error),
    }
}

/// The `Display` text of an `lzma_rs::error::Error`.
#[verifier::external_body]
fn lzma_error_text(error: &lzma_rs::error::Error) -> (text: String) {
    error.to_string()
}

/// Decompresses a response body. A body that is no valid stream gives
/// `LzmaError` with the decoder's own words.
pub fn decompress(compressed: &[u8]) -> (r: Result<Vec<u8>, DukascopyError>)
    ensures
        match r {
            Ok(payload) => lzma_decompressed(compressed@) == Some(payload@),
            Err(error) => lzma_decompressed(compressed@) is None && error is LzmaError,
        },
{
    match lzma_decompress(compressed) {
        Ok(payload) => Ok(payload),
        Err(error) => Err(DukascopyError::LzmaError(lzma_error_text(&error))),
    }
}

/// What one step of the client comes to: from the cache entries `before`, the
/// address and the event to the action and the cache entries `after`.
///
/// At the start a cached payload is delivered and its entry marked as used;
/// without one the action is a download. A transport failure and a status
/// other than success fail and leave the cache alone. A success is
/// decompressed: the payload is stored under the address and delivered, and a
/// body that does not decompress fails with `LzmaError`.
pub open spec fn fetch_outcome(
    before: Seq<Entry>,
    url: Seq<char>,
    event: FetchEvent,
    action: FetchActionModel,
    after: Seq<Entry>,
) -> bool {
    match event {
        FetchEvent::Start => match lookup(before, url) {
            Some(payload) => action == FetchActionModel::Deliver(payload) && after == touched(
                before,
                url,
            ),
            None => action == FetchActionModel::Download && after == before,
        },
        FetchEvent::TransportFailure { detail } => action == FetchActionModel::Fail(
            ErrorModel::HttpError(detail@),
        ) && after == before,
        FetchEvent::Response { status, status_text, body } => if !is_success(status) {
            action == FetchActionModel::Fail(status_failure(status, status_text@)) && after
                == before
        } else {
            match lzma_decompressed(body@) {
                Some(payload) => action == FetchActionModel::Deliver(payload) && after == stored(
                    before,
                    url,
                    payload,
                    CACHE_CAPACITY as nat,
                ),
                None => action is Fail && action->Fail_0 is LzmaError && after == before,
            }
        },
    }
}

/// The client of the archive provider: the cache of what was fetched, and the
/// decisions around a transfer.
pub struct DukascopyClient {
    cache: ArchiveCache,
}

impl View for DukascopyClient {
    type V = Seq<Entry>;

    /// The cached archives, most recently used first.
    closed spec fn view(&self) -> Seq<Entry> {
        self.cache@
    }
}

impl DukascopyClient {
    /// The cache is well formed.
    pub closed spec fn wf(&self) -> bool {
        self.cache.wf()
    }

    /// A client with an empty cache.
    pub fn new() -> (client: Self)
        ensures
            client.wf(),
            client@ == Seq::<Entry>::empty(),
    {
        DukascopyClient { cache: ArchiveCache::new() }
    }

    /// A well-formed client holds at most `CACHE_CAPACITY` archives, each
    /// under an address of its own.
    pub proof fn lemma_wf_bounds(&self)
        requires
            self.wf(),
        ensures
            self@.len() <= CACHE_CAPACITY,
            distinct_keys(self@),
    {
        self.cache.lemma_wf_bounds();
    }

    /// One step of fetching the archive at `url`.
    ///
    /// Called with `FetchEvent::Start`, the client answers from its cache or
    /// asks for a download. After the download the caller hands the outcome in
    /// with a second call.
    pub fn get_cached_data(&mut self, url: &str, event: FetchEvent) -> (action: FetchAction)
        requires
            old(self).wf(),
        ensures
            final(self).wf(),
            fetch_outcome(old(self)@, url@, event, action@, final(self)@),
    {
        match event {
            FetchEvent::Start => {
                match self.cache.get(url) {
                    Some(payload) => FetchAction::Deliver(payload),
                    None => FetchAction::Download,
                }
            },
            FetchEvent::TransportFailure { detail } => FetchAction::Fail(
                DukascopyError::HttpError(detail),
            ),
            FetchEvent::Response { status, status_text, body } => {
                match classify_status(status, status_text) {
                    Some(error) => FetchAction::Fail(error),
                    None => match decompress(body.as_slice()) {
                        Ok(payload) => {
                            self.cache.put(url, payload.clone());
                            FetchAction::Deliver(payload)
                        },
                        Err(error) => FetchAction::Fail(error),
                    },
                }
            },
        }
    }
}

/// A delivered archive is cached: the next request for the same address is
/// answered from the cache, with the same payload and without a download.
pub proof fn lemma_delivered_archive_is_served_from_cache(
    before: Seq<Entry>,
    url: Seq<char>,
    event: FetchEvent,
    payload: Seq<u8>,
    after: Seq<Entry>,
    next: FetchActionModel,
    later: Seq<Entry>,
)
    requires
        distinct_keys(before),
        before.len() <= CACHE_CAPACITY,
        fetch_outcome(before, url, event, FetchActionModel::Deliver(payload), after),
        fetch_outcome(after, url, FetchEvent::Start, next, later),
    ensures
        next == FetchActionModel::Deliver(payload),
{
    match event {
        FetchEvent::Start => {
            lemma_touched_keeps_entries(before, url);
        },
        FetchEvent::TransportFailure { .. } => {},
        FetchEvent::Response { .. } => {
            lemma_lookup_after_store(before, url, payload, CACHE_CAPACITY as nat);
        },
    }
}

} // verus!
