//! The address of an hourly archive.
//!
//! The provider files one archive per pair and UTC hour under
//! `{FROM}{TO}/{year}/{month}/{day}/{hour}h_ticks.bi5`, where the month is
//! counted from zero and month, day and hour are written with two digits.

use vstd::prelude::*;
use vstd::string::StringExecFns;

use crate::models::CurrencyPair;

verus! {

/// One hour of one UTC calendar day.
#[derive(Debug, Clone, Copy, PartialEq, Eq, Structural)]
pub struct UtcHour {
    pub year: i32,
    /// The month, 1 for January to 12 for December.
    pub month: u32,
    /// The day of the month, from 1.
    pub day: u32,
    /// The hour of the day, 0 to 23.
    pub hour: u32,
}

impl UtcHour {
    /// Month, day and hour lie in the ranges of the calendar.
    pub open spec fn valid(self) -> bool {
        &&& 1 <= self.month <= 12
        &&& 1 <= self.day <= 31
        &&& self.hour <= 23
    }
}

/// The character for a digit from 0 to 9.
pub open spec fn digit_char(digit: int) -> char {
    if digit == 0 {
        '0'
    } else if digit == 1 {
        '1'
    } else if digit == 2 {
        '2'
    } else if digit == 3 {
        '3'
    } else if digit == 4 {
        '4'
    } else if digit == 5 {
        '5'
    } else if digit == 6 {
        '6'
    } else if digit == 7 {
        '7'
    } else if digit == 8 {
        '8'
    } else {
        '9'
    }
}

/// The decimal digits of `number`, without leading zeros.
pub open spec fn decimal_digits(number: nat) -> Seq<char>
    decreases number,
{
    if number < 10 {
        seq![digit_char(number as int)]
    } else {
        decimal_digits(number / 10).push(digit_char((number % 10) as int))
    }
}

/// The decimal digits of `number`, with a zero in front of a single digit.
pub open spec fn two_digits(number: nat) -> Seq<char> {
    if number < 10 {
        seq!['0'] + decimal_digits(number)
    } else {
        decimal_digits(number)
    }
}

/// The decimal digits of `number`, after a minus sign where it is below zero.
pub open spec fn signed_decimal(number: int) -> Seq<char> {
    if number < 0 {
        seq!['-'] + decimal_digits((-number) as nat)
    } else {
        decimal_digits(number as nat)
    }
}

/// What every archive address starts with.
pub open spec fn url_prefix() -> Seq<char> {
    "https://datafeed.dukascopy.com/datafeed/"@
}

/// What every archive address ends with.
pub open spec fn url_suffix() -> Seq<char> {
    "h_ticks.bi5"@
}

/// The address of the archive of the pair `from`/`to` for the given hour.
pub open spec fn archive_url_text(from: Seq<char>, to: Seq<char>, hour: UtcHour) -> Seq<char> {
    url_prefix() + from + to + seq!['/'] + signed_decimal(hour.year as int) + seq!['/']
        + two_digits((hour.month - 1) as nat) + seq!['/'] + two_digits(hour.day as nat) + seq!['/']
        + two_digits(hour.hour as nat) + url_suffix()
}

/// The text of one digit.
fn digit_text(digit: u32) -> (text: &'static str)
    requires
        digit < 10,
    ensures
        text@ == seq![digit_char(digit as int)],
{
    proof {
        reveal_strlit("0");
        reveal_strlit("1");
        reveal_strlit("2");
        reveal_strlit("3");
        reveal_strlit("4");
        reveal_strlit("5");
        reveal_strlit("6");
        reveal_strlit("7");
        reveal_strlit("8");
        reveal_strlit("9");
    }
    let text = if digit == 0 {
        "0"
    } else if digit == 1 {
        "1"
    } else if digit == 2 {
        "2"
    } else if digit == 3 {
        "3"
    } else if digit == 4 {
        "4"
    } else if digit == 5 {
        "5"
    } else if digit == 6 {
        "6"
    } else if digit == 7 {
        "7"
    } else if digit == 8 {
        "8"
    } else {
        "9"
    };
    assert(text@ =~= seq![digit_char(digit as int)]);
    text
}

/// Appends the decimal digits of `number`.
fn append_decimal(out: &mut String, number: u32)
    ensures
        final(out)@ == old(out)@ + decimal_digits(number as nat),
    decreases number,
{
    if number >= 10 {
        append_decimal(out, number / 10);
    }
    out.append(digit_text(number % 10));
    assert(out@ =~= old(out)@ + decimal_digits(number as nat));
}

/// Appends `number` with at least two digits.
fn append_two_digits(out: &mut String, number: u32)
    ensures
        final(out)@ == old(out)@ + two_digits(number as nat),
{
    if number < 10 {
        out.append(digit_text(0));
    }
    append_decimal(out, number);
    assert(out@ =~= old(out)@ + two_digits(number as nat));
}

/// Appends a year, with a minus sign where it is below zero.
fn append_year(out: &mut String, year: i32)
    ensures
        final(out)@ == old(out)@ + signed_decimal(year as int),
{
    if year < 0 {
        proof {
            reveal_strlit("-");
        }
        out.append("-");
        let magnitude: u32 = (-(year as i64)) as u32;
        append_decimal(out, magnitude);
    } else {
        append_decimal(out, year as u32);
    }
    assert(out@ =~= old(out)@ + signed_decimal(year as int));
}

/// The address of the archive that holds the ticks of `pair` for `hour`.
pub fn archive_url(pair: &CurrencyPair, hour: UtcHour) -> (url: String)
    requires
        hour.valid(),
    ensures
        url@ == archive_url_text(pair.from@, pair.to@, hour),
{
    proof {
        reveal_strlit("/");
    }
    let mut url = String::from_str("https://datafeed.dukascopy.com/datafeed/");
    url.append(pair.from.as_str());
    url.append(pair.to.as_str());
    url.append("/");
    append_year(&mut url, hour.year);
    url.append("/");
    append_two_digits(&mut url, hour.month - 1);
    url.append("/");
    append_two_digits(&mut url, hour.day);
    url.append("/");
    append_two_digits(&mut url, hour.hour);
    url.append("h_ticks.bi5");
    assert(url@ =~= archive_url_text(pair.from@, pair.to@, hour));
    url
}

} // verus!
