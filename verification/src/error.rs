//! The closed set of failures that a resolution can end in.

use vstd::prelude::*;

verus! {

/// A failure of a rate resolution.
#[derive(Debug, PartialEq, Eq)]
pub enum DukascopyError {
    /// A transport failure, or a response status with no variant of its own.
    HttpError(String),
    /// The response body is not a valid LZMA stream.
    LzmaError(String),
    /// A malformed tick record, or a payload that is not a whole number of records.
    InvalidTickData,
    /// A currency code that is not exactly three characters long.
    InvalidCurrencyCode,
    /// Kept for callers that reject weekends themselves; the resolver never
    /// returns it, because it answers weekends with the preceding Friday's close.
    MarketClosed,
    /// The provider has no archive for the hour, or the archive holds no tick.
    DataNotFound,
    /// The provider answered 429.
    RateLimitExceeded,
    /// The provider answered 401.
    Unauthorized,
    /// The provider answered 403.
    Forbidden,
    /// The provider answered 400.
    InvalidRequest,
    /// A failure outside the categories above.
    Unknown(String),
}

/// The mathematical value of a [`DukascopyError`]: the same variants, with the
/// detail text as a sequence of characters.
pub enum ErrorModel {
    HttpError(Seq<char>),
    LzmaError(Seq<char>),
    InvalidTickData,
    InvalidCurrencyCode,
    MarketClosed,
    DataNotFound,
    RateLimitExceeded,
    Unauthorized,
    Forbidden,
    InvalidRequest,
    Unknown(Seq<char>),
}

impl View for DukascopyError {
    type V = ErrorModel;

    open spec fn view(&self) -> ErrorModel {
        match self {
            DukascopyError::HttpError(detail) => ErrorModel::HttpError(detail@),
            DukascopyError::LzmaError(detail) => ErrorModel::LzmaError(detail@),
            DukascopyError::InvalidTickData => ErrorModel::InvalidTickData,
            DukascopyError::InvalidCurrencyCode => ErrorModel::InvalidCurrencyCode,
            DukascopyError::MarketClosed => ErrorModel::MarketClosed,
            DukascopyError::DataNotFound => ErrorModel::DataNotFound,
            DukascopyError::RateLimitExceeded => ErrorModel::RateLimitExceeded,
            DukascopyError::Unauthorized => ErrorModel::Unauthorized,
            DukascopyError::Forbidden => ErrorModel::Forbidden,
            DukascopyError::InvalidRequest => ErrorModel::InvalidRequest,
            DukascopyError::Unknown(detail) => ErrorModel::Unknown(detail@),
        }
    }
}

} // verus!
