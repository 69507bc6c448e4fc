//! The value model of the quote generator.

use crate::decimal::{is_float, is_float_text};
use crate::quote::{QuoteView, StockQuote};
use crate::text::{chars_of, is_text};
use vstd::prelude::*;

verus! {

/// Milliseconds between two generation rounds.
pub const WAIT_MILLISECOND_NEXT_GENERATION: u64 = 100;

/// The producer of quotes.
#[derive(Debug, Clone, Copy, PartialEq, Eq, Structural)]
pub struct QuoteGenerator {}

/// The band that the price of a ticker is drawn from, in tenths of a unit:
/// the price is `base + u * spread` for a `u` in `[0, 1)`.
#[derive(Debug, Clone, Copy, PartialEq, Eq, Structural)]
pub struct PriceBand {
    pub base_tenths: u32,
    pub spread_tenths: u32,
}

/// The tickers that trade high and much.
pub open spec fn is_popular(ticker: Seq<char>) -> bool {
    ticker == "AAPL"@ || ticker == "MSFT"@ || ticker == "TSLA"@
}

/// The least volume of a ticker.
pub open spec fn volume_base(ticker: Seq<char>) -> nat {
    if is_popular(ticker) {
        1000
    } else {
        100
    }
}

/// The width of the range of volumes of a ticker.
pub open spec fn volume_span(ticker: Seq<char>) -> nat {
    if is_popular(ticker) {
        5000
    } else {
        1000
    }
}

/// The volume of a ticker for the sample `u = sample / 2^32` of `[0, 1)`:
/// the base and the whole part of `u * span`.
pub open spec fn volume_of(ticker: Seq<char>, sample: u32) -> nat {
    volume_base(ticker) + (sample as nat * volume_span(ticker)) / 0x1_0000_0000
}

/// The price band of a ticker: 210 and a twentieth of it for the popular
/// ones, 40 and nine tenths of it for the others.
pub open spec fn price_band_of(ticker: Seq<char>) -> PriceBand {
    if is_popular(ticker) {
        PriceBand { base_tenths: 2100, spread_tenths: 105 }
    } else {
        PriceBand { base_tenths: 400, spread_tenths: 360 }
    }
}

/// The quote of `ticker` at `price` for a volume sample and a time; none
/// where `price` is no floating-point literal.
pub open spec fn generated(
    ticker: Seq<char>,
    price: Seq<char>,
    sample: u32,
    timestamp: u64,
) -> Option<QuoteView> {
    if is_float_text(price) {
        Some(QuoteView { ticker, price, volume: volume_of(ticker, sample) as u32, timestamp })
    } else {
        None
    }
}

/// The volume of every ticker lies in its range.
pub proof fn lemma_volume_in_range(ticker: Seq<char>, sample: u32)
    ensures
        volume_base(ticker) <= volume_of(ticker, sample) < volume_base(ticker) + volume_span(
            ticker,
        ),
{
}

/// `rand::random::<u32>()`: a sample of the thread's generator. Nothing is
/// claimed of its value.
#[verifier::external_body]
fn draw_sample() -> (sample: u32) {
    rand::random::<u32>()
}

impl QuoteGenerator {
    /// Whether `ticker` is one of the popular ones.
    pub fn popular(ticker: &str) -> (r: bool)
        ensures
            r == is_popular(ticker@),
    {
        let name = chars_of(ticker);
        is_text(&name, "AAPL") || is_text(&name, "MSFT") || is_text(&name, "TSLA")
    }

    /// The price band of `ticker`.
    pub fn price_band(ticker: &str) -> (band: PriceBand)
        ensures
            band == price_band_of(ticker@),
    {
        if Self::popular(ticker) {
            PriceBand { base_tenths: 2100, spread_tenths: 105 }
        } else {
            PriceBand { base_tenths: 400, spread_tenths: 360 }
        }
    }

    /// The volume of `ticker` for a sample.
    pub fn volume(ticker: &str, sample: u32) -> (v: u32)
        ensures
            v == volume_of(ticker@, sample),
    {
        let scaled: u64 = if Self::popular(ticker) {
            1000 * 0x1_0000_0000u64 + sample as u64 * 5000
        } else {
            100 * 0x1_0000_0000u64 + sample as u64 * 1000
        };
        (scaled / 0x1_0000_0000u64) as u32
    }

    /// The quote of `ticker` at `price`, taken at `timestamp`, its volume
    /// from `sample`.
    pub fn quote_from_sample(ticker: &str, price: &str, sample: u32, timestamp: u64) -> (r: Option<
        StockQuote,
    >)
        ensures
            match r {
                Some(q) => generated(ticker@, price@, sample, timestamp) == Some(q@),
                None => generated(ticker@, price@, sample, timestamp) is None,
            },
    {
        let text = chars_of(price);
        if !is_float(&text) {
            return None;
        }
        Some(
            StockQuote {
                ticker: ticker.to_owned(),
                price: price.to_owned(),
                volume: Self::volume(ticker, sample),
                timestamp,
            },
        )
    }

    /// The quote of `ticker` at `price`, taken at `timestamp`, its volume
    /// drawn at random from the ticker's range.
    pub fn generate_quote(ticker: &str, price: &str, timestamp: u64) -> (r: Option<StockQuote>)
        ensures
            match r {
                Some(q) => exists|sample: u32|
                    generated(ticker@, price@, sample, timestamp) == Some(q@),
                None => !is_float_text(price@),
            },
    {
        let sample = draw_sample();
        Self::quote_from_sample(ticker, price, sample, timestamp)
    }
}

} // verus!
