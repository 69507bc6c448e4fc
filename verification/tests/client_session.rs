use quote_lib::client::{
    ClientEvent, ClientNext, ClientPhase, ClientStep, QuoteStreamClient, DURATION_READ_TIMEOUT,
    DURATION_WAIT_TO_CONNECT, PING_SEND_THREAD_WAIT, TCP_KEEPALIVE_WITH_INTERVAL,
    TCP_KEEPALIVE_WITH_TIME, UDP_READ_TIMEOUT_SECOND,
};
use quote_lib::errors::QuoteClientError;
use quote_lib::quote::StockQuote;
use quote_lib::server::QuoteServer;
use quote_lib::stream::QuoteStream;

fn only(next: ClientNext) -> ClientStep {
    ClientStep { next, deliver: None, cancel_pinger: false, start_pinger: false }
}

fn datagram(payload: &str, source: &str) -> ClientEvent {
    ClientEvent::Datagram(payload.to_string(), source.to_string())
}

fn streaming() -> QuoteStreamClient {
    let mut c = QuoteStreamClient::new();
    assert_eq!(c.get_quote_stream(&ClientEvent::Connected), only(ClientNext::Subscribe));
    let ok = ClientEvent::ResponseLine("OK Stream\n".to_string());
    assert_eq!(c.get_quote_stream(&ok), only(ClientNext::Receive));
    assert_eq!(c.phase, ClientPhase::Streaming);
    c
}

#[test]
fn test_get_quote_stream() {
    let mut test_client = QuoteStreamClient::new();
    let step = test_client.get_quote_stream(&ClientEvent::ConnectFailed);
    assert_eq!(step, only(ClientNext::WaitThenConnect));
    assert_eq!(test_client.phase, ClientPhase::Disconnected);
    assert_eq!(
        QuoteClientError::BadNetworkBindSocket("Error connect address 127.0.0.1:8120".to_string())
            .message(),
        "Bad network bind socket: Error connect address 127.0.0.1:8120"
    );
}

#[test]
fn the_subscription_line() {
    let line = QuoteStreamClient::subscribe_command("127.0.0.1:55500", "AAPL,IBM");
    assert_eq!(line, "STREAM udp://127.0.0.1:55500 AAPL,IBM\n");
    let mut server = QuoteServer::new();
    server.open();
    let step = server.handle_line(&line);
    assert!(QuoteStreamClient::response_is_ok(step.reply.as_ref().unwrap()));
    assert_eq!(server.client_addr, "127.0.0.1:55500");
}

#[test]
fn answers_of_the_server() {
    assert!(QuoteStreamClient::response_is_ok("OK Stream\n"));
    assert!(QuoteStreamClient::response_is_ok("xOKx"));
    assert!(!QuoteStreamClient::response_is_ok("Welcome to quotation stream!\n"));
    assert!(!QuoteStreamClient::response_is_ok("Error command stream\n"));
    assert!(!QuoteStreamClient::response_is_ok("O K"));
    assert!(!QuoteStreamClient::response_is_ok(""));
}

#[test]
fn subscribing_reads_until_ok() {
    let mut c = QuoteStreamClient::new();
    c.get_quote_stream(&ClientEvent::Connected);
    assert_eq!(c.phase, ClientPhase::Subscribing);
    let greeting = ClientEvent::ResponseLine("Welcome to quotation stream!\n".to_string());
    assert_eq!(c.get_quote_stream(&greeting), only(ClientNext::ReadResponse));
    assert_eq!(
        c.get_quote_stream(&ClientEvent::ResponseWouldBlock),
        only(ClientNext::WaitThenReadResponse)
    );
    assert_eq!(c.phase, ClientPhase::Subscribing);
    assert_eq!(c.get_quote_stream(&ClientEvent::ResponseClosed), only(ClientNext::Connect));
    assert_eq!(c.phase, ClientPhase::Disconnected);
}

#[test]
fn the_first_datagram_starts_the_pinger() {
    let mut c = streaming();
    let step = c.get_quote_stream(&datagram("AAPL|150.23|1200|1633045692\n", "127.0.0.1:55000"));
    assert_eq!(
        step,
        ClientStep {
            next: ClientNext::Receive,
            deliver: StockQuote::from_string("AAPL|150.23|1200|1633045692"),
            cancel_pinger: false,
            start_pinger: true,
        }
    );
    assert!(step.deliver.is_some());
    assert_eq!(c.remote_add, Some("127.0.0.1:55000".to_string()));
    let step = c.get_quote_stream(&datagram("IBM|41|150|1633045693\n", "127.0.0.1:55000"));
    assert_eq!(step.deliver.unwrap().ticker, "IBM");
    assert!(!step.cancel_pinger && !step.start_pinger);
}

#[test]
fn a_new_source_moves_the_pinger() {
    let mut c = streaming();
    c.get_quote_stream(&datagram("IBM|41|150|1\n", "127.0.0.1:55000"));
    let step = c.get_quote_stream(&datagram("IBM|41|150|2\n", "127.0.0.1:55001"));
    assert!(step.cancel_pinger && step.start_pinger);
    assert_eq!(c.remote_add, Some("127.0.0.1:55001".to_string()));
}

#[test]
fn a_malformed_datagram_is_dropped() {
    let mut c = streaming();
    c.get_quote_stream(&datagram("IBM|41|150|1\n", "s:1"));
    for bad in ["IBM|41|150\n", "IBM|x|150|1\n", "IBM|41|x|1\n", "IBM|41|150|x\n", "PING\n"] {
        let step = c.get_quote_stream(&datagram(bad, "s:1"));
        assert_eq!(step, only(ClientNext::Receive), "{:?}", bad);
        assert_eq!(c.phase, ClientPhase::Streaming);
    }
    let step = c.get_quote_stream(&datagram("IBM|42|151|2\n", "s:1"));
    assert_eq!(step.deliver.unwrap().volume, 151);
}

#[test]
fn losing_the_stream_disconnects() {
    for event in [ClientEvent::EmptyDatagram, ClientEvent::ReceiveFailed, ClientEvent::PingerStopped] {
        let mut c = streaming();
        c.get_quote_stream(&datagram("IBM|41|150|1\n", "s:1"));
        let step = c.get_quote_stream(&event);
        assert_eq!(
            step,
            ClientStep {
                next: ClientNext::Connect,
                deliver: None,
                cancel_pinger: true,
                start_pinger: false
            }
        );
        assert_eq!(c.phase, ClientPhase::Disconnected);
        assert_eq!(c.remote_add, None);

        let mut fresh = streaming();
        assert_eq!(fresh.get_quote_stream(&event), only(ClientNext::Connect));
    }
}

#[test]
fn events_out_of_place_change_nothing() {
    let mut c = QuoteStreamClient::new();
    assert_eq!(c.get_quote_stream(&datagram("IBM|41|150|1\n", "s:1")), only(ClientNext::Connect));
    assert_eq!(c.phase, ClientPhase::Disconnected);
    c.get_quote_stream(&ClientEvent::Connected);
    assert_eq!(c.get_quote_stream(&ClientEvent::Connected), only(ClientNext::ReadResponse));
    let mut s = streaming();
    assert_eq!(s.get_quote_stream(&ClientEvent::ConnectFailed), only(ClientNext::Receive));
    assert_eq!(s.phase, ClientPhase::Streaming);
}

#[test]
fn the_ping_is_a_keep_alive_probe() {
    let ping = QuoteStreamClient::ping_payload();
    assert_eq!(ping, b"PING\n".to_vec());
    let text = String::from_utf8_lossy(&ping);
    assert!(QuoteStream::accepts_probe(&text, "c:1", "c:1"));
}

#[test]
fn client_timings() {
    assert_eq!(UDP_READ_TIMEOUT_SECOND, 4);
    assert_eq!(DURATION_WAIT_TO_CONNECT, 10);
    assert_eq!(DURATION_READ_TIMEOUT, 5);
    assert_eq!(TCP_KEEPALIVE_WITH_TIME, 10);
    assert_eq!(TCP_KEEPALIVE_WITH_INTERVAL, 5);
    assert_eq!(PING_SEND_THREAD_WAIT, 2);
}

#[test]
fn client_error_messages() {
    assert_eq!(
        QuoteClientError::AddressParseError("invalid socket address syntax".into()).message(),
        "Error parse network address: invalid socket address syntax"
    );
}
