use quote_lib::errors::QuoteStreamServerError;
use quote_lib::quote::StockQuote;
use quote_lib::server::QuoteServerThreadState;
use quote_lib::stream::{
    Probe, QuoteStream, QuoteStreamResult, StreamRound, PING_READ_TIMEOUT, UDP_READ_TIMEOUT_SECOND,
    UDP_SEND_PERIOD,
};

fn quote(ticker: &str, price: f64, volume: u32, timestamp: u64) -> StockQuote {
    StockQuote { ticker: ticker.to_string(), price: price.to_string(), volume, timestamp }
}

fn probe(payload: &str, source: &str) -> Probe {
    Probe { payload: payload.to_string(), source: source.to_string() }
}

#[test]
fn test_thread_update_tickers() {
    let initial_quote = quote("A", 10.0, 10, 10);
    let mut tickers = vec![initial_quote.clone()];
    let updated_quote = quote("A", 10.0, 2000, 2000);
    let state = QuoteStream::thread_update_tickers(
        &mut tickers,
        Some(&updated_quote),
        QuoteServerThreadState::Running,
    );
    assert_eq!(state, Ok(QuoteServerThreadState::Running));
    assert_eq!(tickers[0].price.parse::<f64>().unwrap(), 10.0);
    assert_eq!(tickers[0].volume, 2000);
    assert_eq!(tickers[0].timestamp, 2000);

    let stopped = QuoteStream::thread_update_tickers(
        &mut tickers,
        Some(&updated_quote),
        QuoteServerThreadState::Cancelled,
    );
    assert_eq!(stopped, Ok(QuoteServerThreadState::Stopped));
}

#[test]
fn updates_touch_only_their_ticker() {
    let mut tickers = vec![
        StockQuote::new("AAPL"),
        StockQuote::new("IBM"),
        StockQuote::new("AAPL"),
        StockQuote::new(""),
    ];
    QuoteStream::apply_update(&mut tickers, &quote("AAPL", 212.5, 1500, 77));
    assert_eq!(
        tickers,
        vec![
            quote("AAPL", 212.5, 1500, 77),
            StockQuote::new("IBM"),
            quote("AAPL", 212.5, 1500, 77),
            StockQuote::new(""),
        ]
    );
    QuoteStream::apply_update(&mut tickers, &quote("MSFT", 1.0, 1, 1));
    assert_eq!(tickers[1], StockQuote::new("IBM"));
    assert_eq!(tickers.len(), 4);
    QuoteStream::apply_update(&mut tickers, &quote("AAPL", 213.0, 1600, 78));
    assert_eq!(tickers[0], quote("AAPL", 213.0, 1600, 78));
}

#[test]
fn a_failed_bus_ends_the_applier() {
    let mut tickers = vec![StockQuote::new("A")];
    let r = QuoteStream::thread_update_tickers(&mut tickers, None, QuoteServerThreadState::Running);
    assert_eq!(
        r,
        Err(QuoteStreamServerError::ReceiveQuoteError("Error receiving quote".to_string()))
    );
    assert_eq!(tickers, vec![StockQuote::new("A")]);
    assert_eq!(r.unwrap_err().message(), "Receive quote error: Error receiving quote");
}

#[test]
fn one_datagram_for_each_entry_in_order() {
    let tickers = vec![quote("AAPL", 150.23, 1200, 1633045692), StockQuote::new("IBM")];
    let out = QuoteStream::datagrams(&tickers);
    assert_eq!(out, vec![b"AAPL|150.23|1200|1633045692\n".to_vec(), b"IBM|0|0|0\n".to_vec()]);
    for (d, q) in out.iter().zip(tickers.iter()) {
        let text = String::from_utf8_lossy(d);
        assert_eq!(StockQuote::from_string(&text).as_ref(), Some(q));
    }
    assert!(QuoteStream::datagrams(&Vec::new()).is_empty());
}

#[test]
fn keep_alive_probes() {
    assert!(QuoteStream::accepts_probe("PING\n", "127.0.0.1:55500", "127.0.0.1:55500"));
    assert!(QuoteStream::accepts_probe("xxPINGxx", "a:1", "a:1"));
    assert!(!QuoteStream::accepts_probe("PING\n", "127.0.0.1:55501", "127.0.0.1:55500"));
    assert!(!QuoteStream::accepts_probe("PIN G\n", "a:1", "a:1"));
    assert!(!QuoteStream::accepts_probe("ping\n", "a:1", "a:1"));
    assert!(!QuoteStream::accepts_probe("PIN", "a:1", "a:1"));
    assert!(!QuoteStream::accepts_probe("", "a:1", "a:1"));
    assert!(QuoteStream::accepts_probe("PPING", "", ""));
}

#[test]
fn liveness_threshold() {
    let s = QuoteStream::new(100);
    assert_eq!(s.keep_alive_timestamp, 100);
    assert!(!s.is_expired(99));
    assert!(!s.is_expired(100));
    assert!(!s.is_expired(105));
    assert!(s.is_expired(106));
    assert!(s.is_expired(u64::MAX));
    assert!(!QuoteStream::new(u64::MAX).is_expired(0));
    assert_eq!(PING_READ_TIMEOUT, 5);
    assert_eq!(UDP_SEND_PERIOD, 2);
    assert_eq!(UDP_READ_TIMEOUT_SECOND, 6);
}

#[test]
fn a_round_with_a_probe_resets_the_deadline() {
    let mut s = QuoteStream::new(100);
    let p = probe("PING\n", "c:1");
    let round = s.thread_stream(QuoteServerThreadState::Running, Some(&p), "c:1", 110);
    assert_eq!(round, StreamRound { state: QuoteServerThreadState::Running, exit: false });
    assert_eq!(s.keep_alive_timestamp, 110);
}

#[test]
fn silence_cancels_the_streamer() {
    let mut s = QuoteStream::new(100);
    let round = s.thread_stream(QuoteServerThreadState::Running, None, "c:1", 105);
    assert_eq!(round, StreamRound { state: QuoteServerThreadState::Running, exit: false });
    let stranger = probe("PING\n", "d:1");
    let round = s.thread_stream(QuoteServerThreadState::Running, Some(&stranger), "c:1", 106);
    assert_eq!(round, StreamRound { state: QuoteServerThreadState::Cancelled, exit: true });
    assert_eq!(s.keep_alive_timestamp, 100);
    let noise = probe("hello", "c:1");
    let round = s.thread_stream(QuoteServerThreadState::Running, Some(&noise), "c:1", 200);
    assert_eq!(round, StreamRound { state: QuoteServerThreadState::Cancelled, exit: true });
}

#[test]
fn a_cancelled_streamer_leaves_even_when_the_client_is_alive() {
    let mut s = QuoteStream::new(100);
    let p = probe("PING\n", "c:1");
    let round = s.thread_stream(QuoteServerThreadState::Cancelled, Some(&p), "c:1", 101);
    assert_eq!(round, StreamRound { state: QuoteServerThreadState::Cancelled, exit: true });
    let round = s.thread_stream(QuoteServerThreadState::Stopped, None, "c:1", 101);
    assert_eq!(round, StreamRound { state: QuoteServerThreadState::Stopped, exit: true });
}

#[test]
fn the_streamer_ends_by_cancelling_its_applier() {
    assert_eq!(
        QuoteStream::finish(QuoteServerThreadState::Running),
        (QuoteServerThreadState::Cancelled, QuoteStreamResult::Canceled)
    );
    assert_eq!(
        QuoteStream::finish(QuoteServerThreadState::Stopped),
        (QuoteServerThreadState::Stopped, QuoteStreamResult::Canceled)
    );
}

#[test]
fn server_error_messages() {
    let text = |e: QuoteStreamServerError| e.message();
    assert_eq!(text(QuoteStreamServerError::BadNetworkBindSocket("x".into())), "Bad network bind socket: x");
    assert_eq!(text(QuoteStreamServerError::BadCreateTcpStream("x".into())), "Bad network create TcpStream: x");
    assert_eq!(text(QuoteStreamServerError::GeneratorQuoteError("x".into())), "Generate quote error: x");
    assert_eq!(text(QuoteStreamServerError::BadSetSystemTimeError("x".into())), "Bad set system time: x");
    assert_eq!(text(QuoteStreamServerError::ChangeThreadStateError("".into())), "State change error: ");
}
