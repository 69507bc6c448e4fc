//! The quote record and its wire text.

use crate::decimal::{
    decimal_text, is_digit, is_float, is_float_char, is_float_text, lemma_decimal_text_value,
    lemma_float_text_chars, lemma_parse_decimal_text, parse_u32, parse_u64, parse_unsigned,
    push_decimal,
};
use crate::errors::QuoteGeneratorError;
use crate::text::{
    append_chars, chars_of, free_of, join, join_with, lemma_split_first, lemma_split_whole,
    lemma_without_absent, pieces, remove_char, split, split_on, string_of, without,
};
use vstd::prelude::*;
use vstd::string::StrSliceExecFns;

verus! {

/// One quote of a ticker. The price is a floating-point number, kept as the
/// decimal text that stands for it on the wire: this library carries prices
/// and never computes with them.
#[derive(Debug, Clone, PartialEq, Eq)]
pub struct StockQuote {
    /// The ticker symbol.
    pub ticker: String,
    /// The price, as decimal text.
    pub price: String,
    /// The traded volume.
    pub volume: u32,
    /// Milliseconds since the Unix epoch.
    pub timestamp: u64,
}

/// A quote as plain values.
pub ghost struct QuoteView {
    pub ticker: Seq<char>,
    pub price: Seq<char>,
    pub volume: u32,
    pub timestamp: u64,
}

impl View for StockQuote {
    type V = QuoteView;

    open spec fn view(&self) -> QuoteView {
        QuoteView {
            ticker: self.ticker@,
            price: self.price@,
            volume: self.volume,
            timestamp: self.timestamp,
        }
    }
}

/// The quote of `ticker` before any update: price `0`, nothing traded, no time.
pub open spec fn blank_quote(ticker: Seq<char>) -> QuoteView {
    QuoteView { ticker, price: "0"@, volume: 0, timestamp: 0 }
}

/// One blank quote for each of `tickers`, in order.
pub open spec fn blank_quotes(tickers: Seq<Seq<char>>) -> Seq<QuoteView> {
    tickers.map_values(|t: Seq<char>| blank_quote(t))
}

/// The views of a sequence of quotes.
pub open spec fn quote_views(v: Seq<StockQuote>) -> Seq<QuoteView> {
    v.map_values(|q: StockQuote| q@)
}

/// The views of a sequence of strings.
pub open spec fn texts(v: Seq<String>) -> Seq<Seq<char>> {
    v.map_values(|s: String| s@)
}

/// The wire text of a quote without its final newline: the four fields with
/// `|` between them.
pub open spec fn wire_text(q: QuoteView) -> Seq<char> {
    q.ticker + seq!['|'] + q.price + seq!['|'] + decimal_text(q.volume as nat) + seq!['|']
        + decimal_text(q.timestamp as nat)
}

/// The datagram of a quote: its wire text and a newline, in UTF-8.
pub open spec fn datagram(q: QuoteView) -> Seq<u8> {
    vstd::utf8::encode_utf8(wire_text(q).push('\n'))
}

/// A quote that its wire text can carry: no `|` and no newline in the
/// ticker, and a floating-point literal for the price.
pub open spec fn well_formed(q: QuoteView) -> bool {
    free_of(q.ticker, '|') && free_of(q.ticker, '\n') && is_float_text(q.price)
}

/// The quote that a wire text stands for, if any: newlines are dropped, the
/// rest must split at `|` into exactly four fields, of which the second is a
/// floating-point literal, the third a `u32` and the fourth a `u64`.
pub open spec fn decode_text(s: Seq<char>) -> Option<QuoteView> {
    let parts = split_on(without(s, '\n'), '|');
    if parts.len() == 4 && is_float_text(parts[1]) && parse_unsigned(parts[2], u32::MAX as nat)
        is Some && parse_unsigned(parts[3], u64::MAX as nat) is Some {
        Some(
            QuoteView {
                ticker: parts[0],
                price: parts[1],
                volume: parse_unsigned(parts[2], u32::MAX as nat)->0 as u32,
                timestamp: parse_unsigned(parts[3], u64::MAX as nat)->0 as u64,
            },
        )
    } else {
        None
    }
}

/// The time stamp of a quote as a signed number of milliseconds: itself
/// where it fits, else wrapped round.
pub open spec fn signed_millis(timestamp: u64) -> i64 {
    if timestamp <= i64::MAX {
        timestamp as i64
    } else {
        (timestamp - 0x1_0000_0000_0000_0000) as i64
    }
}

/// The date and time, in UTC, that lie `millis` milliseconds after the start
/// of 1970, written as year, month and day with `-` between, a `T`, and
/// hour, minute and second with `:` between; none where chrono has no date
/// for it.
pub uninterp spec fn utc_date_time_text(millis: i64) -> Option<Seq<char>>;

/// The JSON object of a quote whose time stamp reads `date_time`.
pub open spec fn json_text(q: QuoteView, date_time: Seq<char>) -> Seq<char> {
    "{\"ticker\": \""@ + q.ticker + "\",  \"price\": "@ + q.price + ", \"volume\": "@
        + decimal_text(q.volume as nat) + ", \"timestamp\": \""@ + date_time + "\"}"@
}

/// `chrono::DateTime::from_timestamp_millis`, and on the date it gives
/// `format` with `%Y-%m-%dT%H:%M:%S` and `to_string`: the text of the date,
/// or none where the first gives none. The text depends on `millis` alone.
#[verifier::external_body]
fn utc_date_time(millis: i64) -> (r: Option<String>)
    ensures
        match r {
            Some(t) => utc_date_time_text(millis) == Some(t@),
            None => utc_date_time_text(millis) is None,
        },
{
    match chrono::DateTime::from_timestamp_millis(millis) {
        Some(date) => Some(date.format("%Y-%m-%dT%H:%M:%S").to_string()),
        None => None,
    }
}

/// Reading the wire text of a well-formed quote, with or without its final
/// newline, gives the quote back.
pub proof fn lemma_decode_wire_text(q: QuoteView)
    requires
        well_formed(q),
    ensures
        decode_text(wire_text(q)) == Some(q),
        decode_text(wire_text(q).push('\n')) == Some(q),
{
    let volume = decimal_text(q.volume as nat);
    let stamp = decimal_text(q.timestamp as nat);
    let r2 = volume + seq!['|'] + stamp;
    let r1 = q.price + seq!['|'] + r2;
    let w = q.ticker + seq!['|'] + r1;
    assert(wire_text(q) =~= w);
    lemma_float_text_chars(q.price);
    lemma_decimal_text_value(q.volume as nat);
    lemma_decimal_text_value(q.timestamp as nat);
    lemma_parse_decimal_text(q.volume as nat, u32::MAX as nat);
    lemma_parse_decimal_text(q.timestamp as nat, u64::MAX as nat);
    assert(free_of(q.price, '|') && free_of(q.price, '\n')) by {
        assert forall|i: int| 0 <= i < q.price.len() implies q.price[i] != '|' && q.price[i]
            != '\n' by {
            assert(is_float_char(q.price[i]));
        }
    }
    assert(free_of(volume, '|') && free_of(volume, '\n')) by {
        assert forall|i: int| 0 <= i < volume.len() implies volume[i] != '|' && volume[i]
            != '\n' by {
            assert(is_digit(volume[i]));
        }
    }
    assert(free_of(stamp, '|') && free_of(stamp, '\n')) by {
        assert forall|i: int| 0 <= i < stamp.len() implies stamp[i] != '|' && stamp[i]
            != '\n' by {
            assert(is_digit(stamp[i]));
        }
    }
    lemma_split_whole(stamp, '|');
    lemma_split_first(volume, stamp, '|');
    lemma_split_first(q.price, r2, '|');
    lemma_split_first(q.ticker, r1, '|');
    let parts = split_on(w, '|');
    assert(parts =~= seq![q.ticker, q.price, volume, stamp]);
    assert(free_of(w, '\n'));
    lemma_without_absent(w, '\n');
    assert(w.push('\n').drop_last() == w);
    assert(without(w.push('\n'), '\n') == w);
}

/// The text of a well-formed quote's datagram reads back as the quote.
pub proof fn lemma_decode_datagram(q: QuoteView)
    requires
        well_formed(q),
    ensures
        decode_text(vstd::utf8::decode_utf8(datagram(q))) == Some(q),
{
    vstd::utf8::encode_utf8_decode_utf8(wire_text(q).push('\n'));
    lemma_decode_wire_text(q);
}

/// The strings made of each text of `parts`.
pub fn strings_of(parts: &Vec<Vec<char>>) -> (out: Vec<String>)
    ensures
        texts(out@) == pieces(parts@),
{
    let mut out: Vec<String> = Vec::new();
    let mut i: usize = 0;
    while i < parts.len()
        invariant
            i <= parts.len(),
            texts(out@) == pieces(parts@).take(i as int),
        decreases parts.len() - i,
    {
        let s = string_of(&parts[i]);
        let ghost before = out@;
        out.push(s);
        assert(texts(out@) == texts(before).push(s@));
        assert(pieces(parts@).take(i + 1) == pieces(parts@).take(i as int).push(parts@[i as int]@));
        i += 1;
    }
    assert(pieces(parts@).take(parts.len() as int) == pieces(parts@));
    out
}

impl StockQuote {
    /// The blank quote of `name_ticker`.
    pub fn new(name_ticker: &str) -> (q: Self)
        ensures
            q@ == blank_quote(name_ticker@),
    {
        StockQuote {
            ticker: name_ticker.to_owned(),
            price: "0".to_owned(),
            volume: 0,
            timestamp: 0,
        }
    }

    /// The tickers of a ticker file: the lines of `text`, empty ones included.
    pub fn get_tickers(text: &str) -> (out: Vec<String>)
        ensures
            texts(out@) == split_on(text@, '\n'),
    {
        let chars = chars_of(text);
        let lines = split(&chars, '\n');
        strings_of(&lines)
    }

    /// One blank quote for each ticker of the comma-separated list `tickers`,
    /// in order; an empty component gives a quote with an empty ticker.
    pub fn get_tickers_subscribe(tickers: &str) -> (out: Vec<StockQuote>)
        ensures
            quote_views(out@) == blank_quotes(split_on(tickers@, ',')),
    {
        let chars = chars_of(tickers);
        let names = split(&chars, ',');
        let mut out: Vec<StockQuote> = Vec::new();
        let mut i: usize = 0;
        while i < names.len()
            invariant
                i <= names.len(),
                quote_views(out@) == blank_quotes(pieces(names@).take(i as int)),
            decreases names.len() - i,
        {
            let name = string_of(&names[i]);
            let q = StockQuote::new(name.as_str());
            let ghost before = out@;
            out.push(q);
            assert(quote_views(out@) == quote_views(before).push(q@));
            assert(pieces(names@).take(i + 1) == pieces(names@).take(i as int).push(
                names@[i as int]@,
            ));
            assert(blank_quotes(pieces(names@).take(i + 1)) == blank_quotes(
                pieces(names@).take(i as int),
            ).push(blank_quote(names@[i as int]@)));
            i += 1;
        }
        assert(pieces(names@).take(names.len() as int) == pieces(names@));
        out
    }

    /// The tickers of a ticker file as one comma-separated list: the lines
    /// of `text` with `,` between them.
    pub fn get_tickers_string_from_file(text: &str) -> (out: String)
        ensures
            out@ == join_with(split_on(text@, '\n'), ','),
    {
        let chars = chars_of(text);
        let lines = split(&chars, '\n');
        let joined = join(&lines, ',');
        string_of(&joined)
    }

    /// The characters of the wire text, without the final newline.
    fn wire_chars(&self) -> (out: Vec<char>)
        ensures
            out@ == wire_text(self@),
    {
        let mut out = chars_of(self.ticker.as_str());
        out.push('|');
        let price = chars_of(self.price.as_str());
        append_chars(&mut out, &price);
        out.push('|');
        push_decimal(&mut out, self.volume as u64);
        out.push('|');
        push_decimal(&mut out, self.timestamp);
        assert(out@ =~= wire_text(self@));
        out
    }

    /// The wire text of the quote, without the final newline.
    pub fn to_string(&self) -> (out: String)
        ensures
            out@ == wire_text(self@),
    {
        let chars = self.wire_chars();
        string_of(&chars)
    }

    /// The datagram of the quote: its wire text and a newline, in UTF-8.
    pub fn to_bytes(&self) -> (out: Vec<u8>)
        ensures
            out@ == datagram(self@),
    {
        let mut chars = self.wire_chars();
        chars.push('\n');
        let text = string_of(&chars);
        text.as_str().as_bytes_vec()
    }

    /// The JSON object of the quote, its time stamp reading `date_time`.
    pub fn json_with_date_time(&self, date_time: &str) -> (out: String)
        ensures
            out@ == json_text(self@, date_time@),
    {
        let mut out = chars_of("{\"ticker\": \"");
        let ticker = chars_of(self.ticker.as_str());
        append_chars(&mut out, &ticker);
        let sep = chars_of("\",  \"price\": ");
        append_chars(&mut out, &sep);
        let price = chars_of(self.price.as_str());
        append_chars(&mut out, &price);
        let sep = chars_of(", \"volume\": ");
        append_chars(&mut out, &sep);
        push_decimal(&mut out, self.volume as u64);
        let sep = chars_of(", \"timestamp\": \"");
        append_chars(&mut out, &sep);
        let date = chars_of(date_time);
        append_chars(&mut out, &date);
        let end = chars_of("\"}");
        append_chars(&mut out, &end);
        assert(out@ =~= json_text(self@, date_time@));
        string_of(&out)
    }

    /// The JSON object of the quote, its time stamp as a date and time in
    /// UTC; an error where the time stamp names no date.
    pub fn to_json(&self) -> (r: Result<String, QuoteGeneratorError>)
        ensures
            match utc_date_time_text(signed_millis(self.timestamp)) {
                Some(t) => r is Ok && r->Ok_0@ == json_text(self@, t),
                None => r is Err && r->Err_0 is BadParseTimestampQuote && r->Err_0.detail()
                    == "Error parse"@,
            },
    {
        let millis: i64 = if self.timestamp <= 0x7fff_ffff_ffff_ffff {
            self.timestamp as i64
        } else {
            (self.timestamp - 0x8000_0000_0000_0000) as i64 + i64::MIN
        };
        match utc_date_time(millis) {
            Some(t) => Ok(self.json_with_date_time(t.as_str())),
            None => Err(QuoteGeneratorError::BadParseTimestampQuote("Error parse".to_owned())),
        }
    }

    /// Reads a quote from its wire text; `None` where the text stands for
    /// none.
    pub fn from_string(s: &str) -> (r: Option<Self>)
        ensures
            match r {
                Some(q) => decode_text(s@) == Some(q@),
                None => decode_text(s@) is None,
            },
    {
        let chars = chars_of(s);
        let line = remove_char(&chars, '\n');
        let parts = split(&line, '|');
        if parts.len() != 4 {
            return None;
        }
        assert(pieces(parts@).len() == 4);
        assert(pieces(parts@)[0] == parts@[0]@);
        assert(pieces(parts@)[1] == parts@[1]@);
        assert(pieces(parts@)[2] == parts@[2]@);
        assert(pieces(parts@)[3] == parts@[3]@);
        if !is_float(&parts[1]) {
            return None;
        }
        let volume = match parse_u32(&parts[2]) {
            Some(n) => n,
            None => {
                return None;
            },
        };
        let timestamp = match parse_u64(&parts[3]) {
            Some(n) => n,
            None => {
                return None;
            },
        };
        Some(
            StockQuote {
                ticker: string_of(&parts[0]),
                price: string_of(&parts[1]),
                volume,
                timestamp,
            },
        )
    }
}

} // verus!
