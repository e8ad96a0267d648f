//! Historical foreign-exchange rates from hourly tick archives.
//!
//! The library decodes fixed-width tick records, picks the tick that answers a
//! request, and turns it into a rounded exchange rate. Network transfer is left
//! to the caller: the service and the client are step functions that say what
//! to download and consume what came back.

pub mod cache;
pub mod calendar;
pub mod client;
pub mod error;
pub mod models;
pub mod parser;
pub mod pricing;
pub mod selection;
pub mod service;
pub mod url;

pub use client::DukascopyClient;
pub use error::DukascopyError;
pub use models::{CurrencyExchange, CurrencyPair, Rate, Tick};
pub use parser::DukascopyParser;
pub use service::DukascopyFxService;
