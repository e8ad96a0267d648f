//! The values that a resolution works on and hands back.
//!
//! Prices, rates and volumes are held as integers. A price is the provider's
//! fixed-point integer, a rate is a mantissa with a scale, and a volume is the
//! bit pattern of an IEEE-754 single-precision number.

use vstd::prelude::*;
use vstd::string::StrSliceExecFns;

verus! {

/// The number of fractional digits of a resolved rate.
pub const RATE_DIGITS: u32 = 4;

/// A currency pair such as USD/PLN. The codes are taken as they are; the
/// resolver checks that each is three characters long.
#[derive(Debug, PartialEq, Eq)]
pub struct CurrencyPair {
    pub from: String,
    pub to: String,
}

/// The mathematical value of a [`CurrencyPair`]: its two codes as sequences
/// of characters.
pub struct CurrencyPairModel {
    pub from: Seq<char>,
    pub to: Seq<char>,
}

impl CurrencyPairModel {
    /// Both codes are exactly three characters long.
    pub open spec fn has_valid_codes(self) -> bool {
        self.from.len() == 3 && self.to.len() == 3
    }
}

impl View for CurrencyPair {
    type V = CurrencyPairModel;

    open spec fn view(&self) -> CurrencyPairModel {
        CurrencyPairModel { from: self.from@, to: self.to@ }
    }
}

impl CurrencyPair {
    /// Whether both codes are exactly three characters long.
    pub fn has_valid_codes(&self) -> (valid: bool)
        ensures
            valid == self@.has_valid_codes(),
    {
        self.from.as_str().unicode_len() == 3 && self.to.as_str().unicode_len() == 3
    }

}

impl Clone for CurrencyPair {
    /// A pair with the same codes.
    fn clone(&self) -> (copy: CurrencyPair)
        ensures
            copy@ == self@,
    {
        CurrencyPair { from: self.from.clone(), to: self.to.clone() }
    }
}

/// The bit pattern `bits` is an IEEE-754 single-precision number that compares
/// below zero: its sign bit is set and it is neither a zero nor a NaN.
pub open spec fn is_negative_single(bits: u32) -> bool {
    0x8000_0000 < bits <= 0xFF80_0000
}

/// One decoded tick record.
#[derive(Debug, Clone, Copy, PartialEq, Eq, Structural)]
pub struct Tick {
    /// Milliseconds since the top of the archive's hour.
    pub offset_ms: u32,
    /// The ask price in hundred-thousandths.
    pub ask_raw: u32,
    /// The bid price in hundred-thousandths.
    pub bid_raw: u32,
    /// The ask volume, as the bits of a single-precision number.
    pub ask_volume_bits: u32,
    /// The bid volume, as the bits of a single-precision number.
    pub bid_volume_bits: u32,
}

impl Tick {
    /// What the decoder asks of a record: both prices above zero, neither
    /// volume below zero.
    pub open spec fn well_formed(self) -> bool {
        &&& self.ask_raw > 0
        &&& self.bid_raw > 0
        &&& !is_negative_single(self.ask_volume_bits)
        &&& !is_negative_single(self.bid_volume_bits)
    }

    /// The distance in milliseconds between the tick and `target_ms`, both
    /// counted from the top of the hour.
    pub open spec fn distance(self, target_ms: int) -> int {
        if self.offset_ms >= target_ms {
            self.offset_ms - target_ms
        } else {
            target_ms - self.offset_ms
        }
    }
}

/// A non-negative decimal number: `mantissa / 10^scale`.
#[derive(Debug, Clone, Copy, PartialEq, Eq, Structural)]
pub struct Rate {
    pub mantissa: u64,
    pub scale: u32,
}

/// The mathematical value of a [`CurrencyExchange`].
pub struct CurrencyExchangeModel {
    pub pair: CurrencyPairModel,
    pub rate: Rate,
    pub timestamp: i64,
    pub bid_volume_bits: u32,
    pub ask_volume_bits: u32,
}

impl View for CurrencyExchange {
    type V = CurrencyExchangeModel;

    open spec fn view(&self) -> CurrencyExchangeModel {
        CurrencyExchangeModel {
            pair: self.pair@,
            rate: self.rate,
            timestamp: self.timestamp,
            bid_volume_bits: self.bid_volume_bits,
            ask_volume_bits: self.ask_volume_bits,
        }
    }
}

/// A resolved exchange rate.
#[derive(Debug, PartialEq, Eq)]
pub struct CurrencyExchange {
    /// The pair that was asked for.
    pub pair: CurrencyPair,
    /// The mid price of the selected tick, rounded to `RATE_DIGITS` fractional digits.
    pub rate: Rate,
    /// The instant of the selected tick, in milliseconds since the Unix epoch.
    pub timestamp: i64,
    /// The bid volume of the selected tick, as the bits of a single-precision number.
    pub bid_volume_bits: u32,
    /// The ask volume of the selected tick, as the bits of a single-precision number.
    pub ask_volume_bits: u32,
}

impl Clone for CurrencyExchange {
    /// An exchange with the same values.
    fn clone(&self) -> (copy: CurrencyExchange)
        ensures
            copy@ == self@,
    {
        CurrencyExchange {
            pair: self.pair.clone(),
            rate: self.rate,
            timestamp: self.timestamp,
            bid_volume_bits: self.bid_volume_bits,
            ask_volume_bits: self.ask_volume_bits,
        }
    }
}

} // verus!
