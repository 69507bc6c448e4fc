use quote_lib::quote::StockQuote;
use quote_lib::errors::QuoteStreamServerError;
use quote_lib::server::{
    QuoteServer, QuoteServerThreadState, ServerPlan, SessionPhase, SessionStep,
};

fn said(text: &str) -> SessionStep {
    SessionStep { reply: Some(text.to_string()), cancel_workers: false, start_workers: false }
}

fn opened() -> QuoteServer {
    let mut s = QuoteServer::new();
    assert_eq!(s.open(), said("Welcome to quotation stream!\n"));
    s
}

#[test]
fn greeting_is_written_once() {
    let mut s = QuoteServer::new();
    assert_eq!(s.phase, SessionPhase::Idle);
    assert_eq!(s.open(), said("Welcome to quotation stream!\n"));
    assert_eq!(s.phase, SessionPhase::AwaitCommand);
    assert_eq!(s.open(), SessionStep { reply: None, cancel_workers: false, start_workers: false });
    assert_eq!(s.phase, SessionPhase::AwaitCommand);
}

#[test]
fn an_idle_session_ignores_lines() {
    let mut s = QuoteServer::new();
    let step = s.handle_line("STREAM udp://127.0.0.1:55500 AAPL\n");
    assert_eq!(step, SessionStep { reply: None, cancel_workers: false, start_workers: false });
    assert_eq!(s.phase, SessionPhase::Idle);
}

#[test]
fn stream_subscribes_and_starts_workers() {
    let mut s = opened();
    let step = s.handle_line("STREAM udp://127.0.0.1:55500 AAPL,IBM\n");
    assert_eq!(
        step,
        SessionStep {
            reply: Some("OK Stream\n".to_string()),
            cancel_workers: false,
            start_workers: true
        }
    );
    assert_eq!(s.phase, SessionPhase::Streaming);
    assert_eq!(s.client_addr, "127.0.0.1:55500");
    assert_eq!(s.subscribe_tickers, vec![StockQuote::new("AAPL"), StockQuote::new("IBM")]);
}

#[test]
fn a_second_stream_replaces_the_first() {
    let mut s = opened();
    assert_eq!(s.handle_line("STREAM udp://127.0.0.1:55500 AAPL,IBM\n").reply, Some("OK Stream\n".to_string()));
    let step = s.handle_line("RESTREAM udp://127.0.0.1:55500 IBM\n");
    assert_eq!(
        step,
        SessionStep {
            reply: Some("OK Stream\n".to_string()),
            cancel_workers: true,
            start_workers: true
        }
    );
    assert_eq!(s.subscribe_tickers, vec![StockQuote::new("IBM")]);
    assert_eq!(s.phase, SessionPhase::Streaming);
}

#[test]
fn stop_twice() {
    let mut s = opened();
    s.handle_line("STREAM udp://127.0.0.1:55500 AAPL\n");
    let first = s.handle_line("STOP\n");
    assert_eq!(
        first,
        SessionStep { reply: Some("OK Stop\n".to_string()), cancel_workers: true, start_workers: false }
    );
    assert_eq!(s.phase, SessionPhase::AwaitCommand);
    assert!(s.subscribe_tickers.is_empty());
    let second = s.handle_line("STOP\n");
    assert_eq!(second, said("Thread not running\n"));
    assert_eq!(s.phase, SessionPhase::AwaitCommand);
}

#[test]
fn stop_before_any_stream() {
    let mut s = opened();
    assert_eq!(s.handle_line("  STOP  \r\n"), said("Thread not running\n"));
}

#[test]
fn unknown_command_keeps_the_session_usable() {
    let mut s = opened();
    assert_eq!(s.handle_line("HELLO\n"), said("Error command\n"));
    assert_eq!(s.phase, SessionPhase::AwaitCommand);
    assert_eq!(s.handle_line("stream udp://127.0.0.1:1 A\n"), said("Error command\n"));
    let step = s.handle_line("STREAM udp://127.0.0.1:55500 AAPL,IBM\n");
    assert_eq!(step.reply, Some("OK Stream\n".to_string()));
    assert_eq!(s.handle_line("HELLO\n"), said("Error command\n"));
    assert_eq!(s.phase, SessionPhase::Streaming);
    assert_eq!(s.subscribe_tickers.len(), 2);
}

#[test]
fn empty_lines_get_no_reply() {
    let mut s = opened();
    let silent = SessionStep { reply: None, cancel_workers: false, start_workers: false };
    assert_eq!(s.handle_line("\n"), silent);
    assert_eq!(s.handle_line("   \t \r\n"), silent);
    assert_eq!(s.handle_line(""), silent);
    assert_eq!(s.phase, SessionPhase::AwaitCommand);
}

#[test]
fn stream_without_the_udp_prefix_is_refused() {
    let mut s = opened();
    assert_eq!(s.handle_line("STREAM 127.0.0.1:55500 AAPL,IBM\n"), said("Error command stream\n"));
    assert_eq!(s.handle_line("STREAM tcp://127.0.0.1:55500 AAPL\n"), said("Error command stream\n"));
    assert_eq!(s.handle_line("RESTREAM xudp://127.0.0.1:55500 AAPL\n"), said("Error command stream\n"));
    assert_eq!(s.handle_line("STREAM udp:/ AAPL\n"), said("Error command stream\n"));
    assert_eq!(s.phase, SessionPhase::AwaitCommand);
    assert!(s.subscribe_tickers.is_empty());
}

#[test]
fn malformed_stream_changes_nothing() {
    let mut s = opened();
    s.handle_line("STREAM udp://127.0.0.1:55500 AAPL,IBM\n");
    for line in [
        "STREAM\n",
        "STREAM udp://127.0.0.1:55500\n",
        "STREAM udp://127.0.0.1:55500 AAPL IBM\n",
        "STREAM udp:// AAPL\n",
        "RESTREAM AAPL\n",
    ] {
        assert_eq!(s.handle_line(line), said("Error command stream\n"), "{:?}", line);
        assert_eq!(s.phase, SessionPhase::Streaming);
        assert_eq!(s.client_addr, "127.0.0.1:55500");
        assert_eq!(s.subscribe_tickers, vec![StockQuote::new("AAPL"), StockQuote::new("IBM")]);
    }
}

#[test]
fn empty_ticker_components_are_kept() {
    let mut s = opened();
    let step = s.handle_line("STREAM udp://h:1 A,,B\n");
    assert_eq!(step.reply, Some("OK Stream\n".to_string()));
    assert_eq!(
        s.subscribe_tickers,
        vec![StockQuote::new("A"), StockQuote::new(""), StockQuote::new("B")]
    );
}

#[test]
fn only_the_prefix_is_stripped() {
    let mut s = opened();
    s.handle_line("STREAM udp://udp://h:1 A\n");
    assert_eq!(s.client_addr, "udp://h:1");
}

#[test]
fn closing_cancels_running_workers() {
    let mut s = opened();
    s.handle_line("STREAM udp://h:1 A\n");
    let step = s.close();
    assert_eq!(step, SessionStep { reply: None, cancel_workers: true, start_workers: false });
    assert_eq!(s.phase, SessionPhase::Terminated);
    assert!(s.subscribe_tickers.is_empty());
    assert_eq!(s.handle_line("STOP\n"), SessionStep { reply: None, cancel_workers: false, start_workers: false });

    let mut t = opened();
    assert_eq!(t.close(), SessionStep { reply: None, cancel_workers: false, start_workers: false });
}

#[test]
fn command_tokens() {
    let toks = |line: &str| -> Vec<Vec<char>> {
        line.split_whitespace().map(|t| t.chars().collect()).collect()
    };
    assert_eq!(
        QuoteServer::parse_cmd_stream(&toks("STREAM udp://127.0.0.1:55500 AAPL,IBM")),
        Some(("127.0.0.1:55500".to_string(), "AAPL,IBM".to_string()))
    );
    assert_eq!(QuoteServer::parse_cmd_stream(&toks("STREAM 127.0.0.1:55500 AAPL,IBM")), None);
    assert_eq!(QuoteServer::parse_cmd_stream(&toks("STREAM udp://a")), None);
    assert_eq!(QuoteServer::parse_cmd_stream(&toks("")), None);
}

#[test]
fn worker_states() {
    let (running, cancelled, stopped) = (
        QuoteServerThreadState::Running,
        QuoteServerThreadState::Cancelled,
        QuoteServerThreadState::Stopped,
    );
    assert_eq!(stopped.start(), Some(running));
    assert_eq!(cancelled.start(), Some(running));
    assert_eq!(running.start(), None);
    assert_eq!(running.cancel(), cancelled);
    assert_eq!(cancelled.cancel(), cancelled);
    assert_eq!(stopped.cancel(), stopped);
    assert_eq!(running.cancel().cancel(), running.cancel());
    assert!(!running.should_exit());
    assert!(cancelled.should_exit());
    assert!(stopped.should_exit());
    assert_eq!(running.acknowledge(), running);
    assert_eq!(cancelled.acknowledge(), stopped);
    assert_eq!(stopped.acknowledge(), stopped);
}

#[test]
fn the_server_is_planned_from_the_ticker_file() {
    assert_eq!(
        QuoteServer::run_quote_server(Some("AAPL\nIBM")),
        Ok(ServerPlan { tickers: vec!["AAPL".to_string(), "IBM".to_string()], bus_capacity: 2 })
    );
    assert_eq!(
        QuoteServer::run_quote_server(Some("AAPL\nIBM\n")).unwrap().bus_capacity,
        3
    );
    assert_eq!(
        QuoteServer::run_quote_server(None),
        Err(QuoteStreamServerError::BadCreateTcpStream("No read tickers".to_string()))
    );
}
