use dukascopy_fx::url::{archive_url, UtcHour};
use dukascopy_fx::CurrencyPair;

fn pair(from: &str, to: &str) -> CurrencyPair {
    CurrencyPair { from: from.to_string(), to: to.to_string() }
}

#[test]
fn url_counts_the_month_from_zero() {
    let url = archive_url(&pair("USD", "PLN"), UtcHour { year: 2025, month: 1, day: 3, hour: 14 });
    assert_eq!(url, "https://datafeed.dukascopy.com/datafeed/USDPLN/2025/00/03/14h_ticks.bi5");
    let url = archive_url(&pair("EUR", "USD"), UtcHour { year: 2024, month: 12, day: 31, hour: 23 });
    assert_eq!(url, "https://datafeed.dukascopy.com/datafeed/EURUSD/2024/11/31/23h_ticks.bi5");
}

#[test]
fn url_pads_month_day_and_hour_to_two_digits() {
    let url = archive_url(&pair("EUR", "USD"), UtcHour { year: 2025, month: 2, day: 5, hour: 0 });
    assert_eq!(url, "https://datafeed.dukascopy.com/datafeed/EURUSD/2025/01/05/00h_ticks.bi5");
    let url = archive_url(&pair("EUR", "USD"), UtcHour { year: 2025, month: 10, day: 9, hour: 9 });
    assert_eq!(url, "https://datafeed.dukascopy.com/datafeed/EURUSD/2025/09/09/09h_ticks.bi5");
    let url = archive_url(&pair("EUR", "USD"), UtcHour { year: 2025, month: 11, day: 10, hour: 10 });
    assert_eq!(url, "https://datafeed.dukascopy.com/datafeed/EURUSD/2025/10/10/10h_ticks.bi5");
}

#[test]
fn url_writes_the_year_as_it_is() {
    let url = archive_url(&pair("EUR", "USD"), UtcHour { year: 999, month: 1, day: 1, hour: 1 });
    assert_eq!(url, "https://datafeed.dukascopy.com/datafeed/EURUSD/999/00/01/01h_ticks.bi5");
    let url = archive_url(&pair("EUR", "USD"), UtcHour { year: 0, month: 1, day: 1, hour: 1 });
    assert_eq!(url, "https://datafeed.dukascopy.com/datafeed/EURUSD/0/00/01/01h_ticks.bi5");
    let url = archive_url(&pair("EUR", "USD"), UtcHour { year: -44, month: 3, day: 15, hour: 12 });
    assert_eq!(url, "https://datafeed.dukascopy.com/datafeed/EURUSD/-44/02/15/12h_ticks.bi5");
    let url = archive_url(&pair("EUR", "USD"), UtcHour { year: 12345, month: 3, day: 15, hour: 12 });
    assert_eq!(url, "https://datafeed.dukascopy.com/datafeed/EURUSD/12345/02/15/12h_ticks.bi5");
    let url =
        archive_url(&pair("EUR", "USD"), UtcHour { year: i32::MIN, month: 3, day: 15, hour: 12 });
    assert_eq!(url, "https://datafeed.dukascopy.com/datafeed/EURUSD/-2147483648/02/15/12h_ticks.bi5");
}

#[test]
fn url_takes_the_codes_as_they_are() {
    let url = archive_url(&pair("xxx", "Yy"), UtcHour { year: 2025, month: 1, day: 3, hour: 14 });
    assert_eq!(url, "https://datafeed.dukascopy.com/datafeed/xxxYy/2025/00/03/14h_ticks.bi5");
}
