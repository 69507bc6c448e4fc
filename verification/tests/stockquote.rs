use quote_lib::errors::QuoteGeneratorError;
use quote_lib::quote::StockQuote;

fn quote(ticker: &str, price: f64, volume: u32, timestamp: u64) -> StockQuote {
    StockQuote { ticker: ticker.to_string(), price: price.to_string(), volume, timestamp }
}

fn price_of(q: &StockQuote) -> f64 {
    q.price.parse().unwrap()
}

#[test]
fn test_new() {
    let test_quote = quote("test", 0.0, 0, 0);
    let quote = StockQuote::new("test");
    assert_eq!(test_quote, quote);
}

#[test]
fn test_get_tickers() {
    let test_str = "A,B";
    let test_vec: Vec<StockQuote> = vec![StockQuote::new("A"), StockQuote::new("B")];
    let quote_vec = StockQuote::get_tickers_subscribe(test_str);
    assert_eq!(test_vec, quote_vec);
}

#[test]
fn test_to_string() {
    let test_str = "test|0.0|0|0".to_string();
    let test_quote = StockQuote::new("test");
    let quote = StockQuote::from_string(&test_str).unwrap();
    assert_eq!(test_quote.ticker, quote.ticker);
    assert_eq!(price_of(&test_quote), price_of(&quote));
    assert_eq!(test_quote.volume, quote.volume);
    assert_eq!(test_quote.timestamp, quote.timestamp);
}

#[test]
fn test_from_string() {
    let test_str = "AAPL|157.92|300000|1697071010".to_string();
    let test_quote = quote("AAPL", 157.92, 300000, 1697071010);
    let quote = StockQuote::from_string(&test_str).unwrap();
    assert_eq!(test_quote, quote);
}

#[test]
fn test_to_bytes() {
    let test_vec: Vec<u8> = vec![116, 101, 115, 116, 124, 48, 124, 48, 124, 48, 10];
    let quote = StockQuote::new("test");
    assert_eq!(test_vec, quote.to_bytes());
}

#[test]
fn wire_text_of_a_quote() {
    let q = quote("AAPL", 150.23, 1200, 1633045692);
    assert_eq!(q.to_string(), "AAPL|150.23|1200|1633045692");
    assert_eq!(q.to_bytes(), b"AAPL|150.23|1200|1633045692\n".to_vec());
    let back = StockQuote::from_string("AAPL|150.23|1200|1633045692\n").unwrap();
    assert_eq!(back, q);
    assert_eq!(price_of(&back), 150.23);
}

#[test]
fn wrong_arity_is_no_quote() {
    assert!(StockQuote::from_string("AAPL|1.5|10").is_none());
    assert!(StockQuote::from_string("AAPL|1.5|10|20|30").is_none());
    assert!(StockQuote::from_string("").is_none());
    assert!(StockQuote::from_string("PING\n").is_none());
}

#[test]
fn non_numeric_field_is_no_quote() {
    assert!(StockQuote::from_string("AAPL|157.92|INVALID_VOLUME|1697071010").is_none());
    assert!(StockQuote::from_string("AAPL|abc|1|2").is_none());
    assert!(StockQuote::from_string("AAPL|1.5|1|-2").is_none());
    assert!(StockQuote::from_string("AAPL|1.5|4294967296|2").is_none());
    assert!(StockQuote::from_string("AAPL|1.5|4294967295|18446744073709551616").is_none());
    assert!(StockQuote::from_string("AAPL|1.5| 1|2").is_none());
}

#[test]
fn largest_numbers_are_read() {
    let q = StockQuote::from_string("X|1e3|4294967295|18446744073709551615").unwrap();
    assert_eq!(q.volume, u32::MAX);
    assert_eq!(q.timestamp, u64::MAX);
    assert_eq!(q.to_string(), "X|1e3|4294967295|18446744073709551615");
    let p = StockQuote::from_string("X|1|+7|+008").unwrap();
    assert_eq!(p.volume, 7);
    assert_eq!(p.timestamp, 8);
}

#[test]
fn newlines_are_dropped_before_reading() {
    let q = StockQuote::from_string("AA\nPL|1\n.5|1\n0|2\n").unwrap();
    assert_eq!(q, quote("AAPL", 1.5, 10, 2));
}

#[test]
fn price_texts_are_those_that_parse_as_doubles() {
    let samples = [
        "0", "0.0", "1.", ".5", ".", "", "+", "-", "+1", "-1.25", "1e5", "1E5", "1e+5", "1e-5",
        "1e", "1e+", "e5", ".e5", "1.e5", "1.5e10", "inf", "-inf", "+Infinity", "INFINITY", "nan",
        "NaN", "-nan", "infinit", "in", "nanx", "1_000", " 1", "1 ", "0x10", "1.2.3", "1..2",
        "--1", "+-1", "1e5.5", "١", "1,5", "210.5", "12345678901234567890123", "1e400", "infinityy",
        "iNf", "Ⅰnf", "i\u{6e}f", "\u{131}nf", "1f", "1d",
    ];
    for s in samples {
        let line = format!("T|{}|1|2", s);
        let expected = !s.contains('|') && s.parse::<f64>().is_ok();
        assert_eq!(StockQuote::from_string(&line).is_some(), expected, "price text {:?}", s);
    }
}

#[test]
fn integer_texts_are_those_that_parse_as_integers() {
    let samples = [
        "0", "00", "+0", "-0", "", "+", "1", "4294967295", "4294967296", "42949672950", "1a",
        "a1", " 1", "1 ", "+ 1", "++1", "0000000000000000000000000000001", "١٢", "1.0", "1e2",
    ];
    for s in samples {
        let line = format!("T|1|{}|{}", s, s);
        let expected = s.parse::<u32>().is_ok() && s.parse::<u64>().is_ok();
        assert_eq!(StockQuote::from_string(&line).is_some(), expected, "number text {:?}", s);
        if let Some(q) = StockQuote::from_string(&line) {
            assert_eq!(q.volume, s.parse::<u32>().unwrap());
            assert_eq!(q.timestamp, s.parse::<u64>().unwrap());
        }
    }
}

#[test]
fn numbers_are_written_as_std_writes_them() {
    for n in [0u64, 1, 9, 10, 11, 99, 100, 101, 4294967295, 4294967296, u64::MAX] {
        let q = StockQuote { ticker: "T".to_string(), price: "1".to_string(), volume: 7, timestamp: n };
        assert_eq!(q.to_string(), format!("T|1|7|{}", n));
    }
}

#[test]
fn ticker_file_lines() {
    assert_eq!(StockQuote::get_tickers("AAPL\nGOOG\nMSFT"), vec!["AAPL", "GOOG", "MSFT"]);
    assert_eq!(StockQuote::get_tickers("AAPL\nMSFT\n"), vec!["AAPL", "MSFT", ""]);
    assert_eq!(StockQuote::get_tickers(""), vec![""]);
    assert_eq!(StockQuote::get_tickers_string_from_file("AAPL\nMSFT\nGOOGL"), "AAPL,MSFT,GOOGL");
    assert_eq!(StockQuote::get_tickers_string_from_file("A\n\nB\n"), "A,,B,");
    assert_eq!(StockQuote::get_tickers_string_from_file(""), "");
}

#[test]
fn empty_components_give_empty_tickers() {
    let quotes = StockQuote::get_tickers_subscribe("A,,B,");
    let names: Vec<&str> = quotes.iter().map(|q| q.ticker.as_str()).collect();
    assert_eq!(names, vec!["A", "", "B", ""]);
    assert_eq!(StockQuote::get_tickers_subscribe("").len(), 1);
}

#[test]
fn test_to_json() {
    let stock = quote("AAPL", 150.23, 1200, 1633045692);
    let serialized = stock.to_json().unwrap();
    assert_eq!(serialized, "{\"ticker\": \"AAPL\",  \"price\": 150.23, \"volume\": 1200, \"timestamp\": \"1970-01-19T21:37:25\"}");
}

#[test]
fn json_of_the_epoch_and_of_a_wrapped_stamp() {
    let q = quote("T", 1.0, 2, 0);
    assert_eq!(
        q.to_json().unwrap(),
        "{\"ticker\": \"T\",  \"price\": 1, \"volume\": 2, \"timestamp\": \"1970-01-01T00:00:00\"}"
    );
    let late = quote("T", 1.0, 2, u64::MAX);
    assert_eq!(
        late.to_json().unwrap(),
        "{\"ticker\": \"T\",  \"price\": 1, \"volume\": 2, \"timestamp\": \"1969-12-31T23:59:59\"}"
    );
    assert_eq!(
        q.json_with_date_time("now"),
        "{\"ticker\": \"T\",  \"price\": 1, \"volume\": 2, \"timestamp\": \"now\"}"
    );
}

#[test]
fn json_fails_where_the_stamp_names_no_date() {
    let q = quote("T", 1.0, 2, i64::MAX as u64);
    assert_eq!(
        q.to_json(),
        Err(QuoteGeneratorError::BadParseTimestampQuote("Error parse".to_string()))
    );
    assert_eq!(q.to_json().unwrap_err().message(), "Bad parse timestamp: Error parse");
}
