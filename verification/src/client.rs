//! The client's side of a session: connect, subscribe, receive quotes, and
//! keep a ping emitter aimed at the address the quotes come from.

use crate::quote::{decode_text, QuoteView, StockQuote};
use crate::quote::blank_quotes;
use crate::server::{line_step, session_open, SessionPhase, SessionView};
use crate::text::{
    append_chars, chars_of, contains, contains_chars, is_space, lemma_tokens_after_space,
    lemma_tokens_after_word, lemma_tokens_none, occurs_at, one_word, split_on, string_of, tokens,
};
use vstd::prelude::*;

verus! {

/// Seconds that the client waits for a datagram.
pub const UDP_READ_TIMEOUT_SECOND: u64 = 4;

/// Seconds between two attempts to connect; milliseconds between two
/// attempts to read the server's answer.
pub const DURATION_WAIT_TO_CONNECT: u64 = 10;

/// Seconds that the client waits for a line on the control connection.
pub const DURATION_READ_TIMEOUT: u64 = 5;

/// Seconds of idleness before TCP keep-alive probes start.
pub const TCP_KEEPALIVE_WITH_TIME: u64 = 10;

/// Seconds between two TCP keep-alive probes.
pub const TCP_KEEPALIVE_WITH_INTERVAL: u64 = 5;

/// Seconds between two pings.
pub const PING_SEND_THREAD_WAIT: u64 = 2;

/// Where a client session stands.
#[derive(Clone, Copy, Debug, PartialEq, Eq, Structural)]
pub enum ClientPhase {
    /// No control connection.
    Disconnected,
    /// Connected; the subscription was sent and its answer is awaited.
    Subscribing,
    /// Subscribed; datagrams are awaited.
    Streaming,
}

/// What happened to a client session.
#[derive(Clone, Debug, PartialEq, Eq)]
pub enum ClientEvent {
    /// The control connection is open.
    Connected,
    /// The control connection could not be opened.
    ConnectFailed,
    /// The server sent a line on the control connection.
    ResponseLine(String),
    /// Reading the control connection would block.
    ResponseWouldBlock,
    /// The control connection was closed, or reading it failed otherwise.
    ResponseClosed,
    /// A datagram came: its payload as text, and its source address as text.
    Datagram(String, String),
    /// A datagram of no length came.
    EmptyDatagram,
    /// Receiving a datagram failed.
    ReceiveFailed,
    /// The ping emitter has stopped by itself.
    PingerStopped,
}

/// What a client session is to do next.
#[derive(Clone, Copy, Debug, PartialEq, Eq, Structural)]
pub enum ClientNext {
    /// Open the control connection.
    Connect,
    /// Wait `DURATION_WAIT_TO_CONNECT` seconds, then open the control
    /// connection.
    WaitThenConnect,
    /// Send the subscription, then read the answer.
    Subscribe,
    /// Read one more line of the answer.
    ReadResponse,
    /// Wait `DURATION_WAIT_TO_CONNECT` milliseconds, then read the answer.
    WaitThenReadResponse,
    /// Receive a datagram.
    Receive,
}

/// One step of a client session.
#[derive(Clone, Debug, PartialEq, Eq)]
pub struct ClientStep {
    pub next: ClientNext,
    /// A quote to hand to the consumer.
    pub deliver: Option<StockQuote>,
    /// The running ping emitter is to be cancelled.
    pub cancel_pinger: bool,
    /// A ping emitter is to be started, aimed at the session's remote
    /// address, after any cancelling.
    pub start_pinger: bool,
}

/// A client session.
#[derive(Debug)]
pub struct QuoteStreamClient {
    pub phase: ClientPhase,
    /// The address that datagrams come from, which the ping emitter is
    /// aimed at; none before the first datagram.
    pub remote_add: Option<String>,
}

/// A client session as plain values.
pub ghost struct ClientView {
    pub phase: ClientPhase,
    pub remote: Option<Seq<char>>,
}

/// A step of a client session as plain values.
pub ghost struct ClientStepView {
    pub next: ClientNext,
    pub deliver: Option<QuoteView>,
    pub cancel_pinger: bool,
    pub start_pinger: bool,
}

impl View for QuoteStreamClient {
    type V = ClientView;

    open spec fn view(&self) -> ClientView {
        ClientView {
            phase: self.phase,
            remote: match self.remote_add {
                Some(a) => Some(a@),
                None => None,
            },
        }
    }
}

impl View for ClientStep {
    type V = ClientStepView;

    open spec fn view(&self) -> ClientStepView {
        ClientStepView {
            next: self.next,
            deliver: match self.deliver {
                Some(q) => Some(q@),
                None => None,
            },
            cancel_pinger: self.cancel_pinger,
            start_pinger: self.start_pinger,
        }
    }
}

/// A ping emitter runs exactly while a remote address is known, and one is
/// known only while streaming.
pub open spec fn client_wf(s: ClientView) -> bool {
    s.remote is Some ==> s.phase == ClientPhase::Streaming
}

/// The subscription command of a client that listens at `udp_addr` for
/// `tickers`.
pub open spec fn subscription(udp_addr: Seq<char>, tickers: Seq<char>) -> Seq<char> {
    "STREAM udp://"@ + udp_addr + seq![' '] + tickers + seq!['\n']
}

/// A step that only says what to do next.
pub open spec fn go(next: ClientNext) -> ClientStepView {
    ClientStepView { next, deliver: None, cancel_pinger: false, start_pinger: false }
}

/// The session after it lost its connection, and the step it takes: the
/// remote address is forgotten and the ping emitter, if one runs, cancelled.
pub open spec fn disconnect(s: ClientView) -> (ClientView, ClientStepView) {
    (
        ClientView { phase: ClientPhase::Disconnected, remote: None },
        ClientStepView {
            next: ClientNext::Connect,
            deliver: None,
            cancel_pinger: s.remote is Some,
            start_pinger: false,
        },
    )
}

/// The session after a datagram with text `payload` came from `source`, and
/// the step it takes: the quote, if the payload is one, is delivered; a
/// source other than the known one becomes the remote address, and the ping
/// emitter is started anew, aimed at it.
pub open spec fn datagram_step(s: ClientView, payload: Seq<char>, source: Seq<char>) -> (
    ClientView,
    ClientStepView,
) {
    let moved = s.remote != Some(source);
    (
        ClientView { phase: ClientPhase::Streaming, remote: Some(source) },
        ClientStepView {
            next: ClientNext::Receive,
            deliver: decode_text(payload),
            cancel_pinger: moved && s.remote is Some,
            start_pinger: moved,
        },
    )
}

/// The session after `event`, and the step it takes. An event that the
/// phase does not expect changes nothing and has the phase's own action
/// repeated.
pub open spec fn client_step(s: ClientView, event: ClientEvent) -> (ClientView, ClientStepView) {
    match s.phase {
        ClientPhase::Disconnected => match event {
            ClientEvent::Connected => (
                ClientView { phase: ClientPhase::Subscribing, remote: s.remote },
                go(ClientNext::Subscribe),
            ),
            ClientEvent::ConnectFailed => (s, go(ClientNext::WaitThenConnect)),
            _ => (s, go(ClientNext::Connect)),
        },
        ClientPhase::Subscribing => match event {
            ClientEvent::ResponseLine(line) => if contains(line@, "OK"@) {
                (
                    ClientView { phase: ClientPhase::Streaming, remote: s.remote },
                    go(ClientNext::Receive),
                )
            } else {
                (s, go(ClientNext::ReadResponse))
            },
            ClientEvent::ResponseWouldBlock => (s, go(ClientNext::WaitThenReadResponse)),
            ClientEvent::ResponseClosed => disconnect(s),
            _ => (s, go(ClientNext::ReadResponse)),
        },
        ClientPhase::Streaming => match event {
            ClientEvent::Datagram(payload, source) => datagram_step(s, payload@, source@),
            ClientEvent::EmptyDatagram => disconnect(s),
            ClientEvent::ReceiveFailed => disconnect(s),
            ClientEvent::PingerStopped => disconnect(s),
            _ => (s, go(ClientNext::Receive)),
        },
    }
}

/// Every step keeps a well-formed session well-formed; a ping emitter is
/// cancelled only if one runs, and after a step that starts one the session
/// knows the address to aim it at.
pub proof fn lemma_client_step_wf(s: ClientView, event: ClientEvent)
    requires
        client_wf(s),
    ensures
        client_wf(client_step(s, event).0),
        client_step(s, event).1.cancel_pinger ==> s.remote is Some,
        client_step(s, event).1.start_pinger ==> client_step(s, event).0.remote is Some,
{
}

/// A datagram that is no quote is dropped, and the session streams on.
pub proof fn lemma_bad_datagram_dropped(s: ClientView, payload: String, source: String)
    requires
        s.phase == ClientPhase::Streaming,
        decode_text(payload@) is None,
    ensures
        client_step(s, ClientEvent::Datagram(payload, source)).1.deliver is None,
        client_step(s, ClientEvent::Datagram(payload, source)).0.phase == ClientPhase::Streaming,
        client_step(s, ClientEvent::Datagram(payload, source)).1.next == ClientNext::Receive,
{
}

/// The subscription command has three tokens: the verb, the address behind
/// `udp://`, and the ticker list.
pub proof fn lemma_subscription_tokens(udp_addr: Seq<char>, tickers: Seq<char>)
    requires
        one_word(udp_addr),
        one_word(tickers),
    ensures
        tokens(subscription(udp_addr, tickers)) == seq![
            "STREAM"@,
            "udp://"@ + udp_addr,
            tickers,
        ],
{
    let verb = "STREAM"@;
    let arg = "udp://"@ + udp_addr;
    let end = seq!['\n'];
    let r3 = seq![' '] + (tickers + end);
    let r2 = arg + r3;
    let r1 = seq![' '] + r2;
    assert("STREAM udp://"@ =~= verb + seq![' '] + "udp://"@) by {
        reveal_strlit("STREAM udp://");
        reveal_strlit("STREAM");
        reveal_strlit("udp://");
    }
    assert(subscription(udp_addr, tickers) =~= verb + r1);
    assert(one_word(verb)) by {
        reveal_strlit("STREAM");
    }
    assert(one_word(arg)) by {
        reveal_strlit("udp://");
        assert forall|j: int| 0 <= j < arg.len() implies !is_space(#[trigger] arg[j]) by {
            if j >= 6 {
                assert(arg[j] == udp_addr[j - 6]);
            }
        }
    }
    assert(tokens(end) == Seq::<Seq<char>>::empty()) by {
        lemma_tokens_none(end);
    }
    assert(tokens(tickers + end) == seq![tickers]) by {
        lemma_tokens_after_word(tickers, end);
    }
    assert(tokens(r3) == seq![tickers]) by {
        lemma_tokens_after_space(' ', tickers + end);
    }
    assert(tokens(r2) == seq![arg, tickers]) by {
        assert(r3[0] == ' ');
        lemma_tokens_after_word(arg, r3);
    }
    assert(tokens(r1) == seq![arg, tickers]) by {
        lemma_tokens_after_space(' ', r2);
    }
    assert(tokens(verb + r1) == seq![verb, arg, tickers]) by {
        assert(r1[0] == ' ');
        lemma_tokens_after_word(verb, r1);
    }
}

/// An open server session accepts the subscription command of a client:
/// it streams to the client's address the tickers asked for, and its reply
/// is one that the client takes for a yes.
pub proof fn lemma_subscription_accepted(s: SessionView, udp_addr: Seq<char>, tickers: Seq<char>)
    requires
        session_open(s),
        one_word(udp_addr),
        one_word(tickers),
    ensures
        line_step(s, subscription(udp_addr, tickers)).0 == (SessionView {
            phase: SessionPhase::Streaming,
            subscription: blank_quotes(split_on(tickers, ',')),
            client_addr: udp_addr,
        }),
        line_step(s, subscription(udp_addr, tickers)).1.reply == Some("OK Stream\n"@),
        contains("OK Stream\n"@, "OK"@),
{
    lemma_subscription_tokens(udp_addr, tickers);
    reveal_strlit("udp://");
    let toks = tokens(subscription(udp_addr, tickers));
    let arg = "udp://"@ + udp_addr;
    assert(toks[1] == arg);
    assert(arg.subrange(0, 6) =~= "udp://"@);
    assert(arg.skip(6) =~= udp_addr);
    reveal_strlit("OK Stream\n");
    reveal_strlit("OK");
    assert("OK Stream\n"@.subrange(0, 2) =~= "OK"@);
    assert(occurs_at("OK Stream\n"@, "OK"@, 0));
}

fn only(next: ClientNext) -> (step: ClientStep)
    ensures
        step@ == go(next),
{
    ClientStep { next, deliver: None, cancel_pinger: false, start_pinger: false }
}

impl QuoteStreamClient {
    /// A session that has not connected yet.
    pub fn new() -> (s: Self)
        ensures
            s@ == (ClientView { phase: ClientPhase::Disconnected, remote: None }),
    {
        QuoteStreamClient { phase: ClientPhase::Disconnected, remote_add: None }
    }

    /// The line that subscribes a client listening at `udp_bind_adr` to
    /// `tickers`.
    pub fn subscribe_command(udp_bind_adr: &str, tickers: &str) -> (out: String)
        ensures
            out@ == subscription(udp_bind_adr@, tickers@),
    {
        let mut text = chars_of("STREAM udp://");
        let addr = chars_of(udp_bind_adr);
        append_chars(&mut text, &addr);
        text.push(' ');
        let list = chars_of(tickers);
        append_chars(&mut text, &list);
        text.push('\n');
        assert(text@ =~= subscription(udp_bind_adr@, tickers@));
        string_of(&text)
    }

    /// Whether a line of the server's answer accepts the subscription.
    pub fn response_is_ok(line: &str) -> (r: bool)
        ensures
            r == contains(line@, "OK"@),
    {
        let text = chars_of(line);
        let ok = chars_of("OK");
        contains_chars(&text, &ok)
    }

    /// The payload of a ping.
    pub fn ping_payload() -> (out: Vec<u8>)
        ensures
            out@ == seq![0x50u8, 0x49u8, 0x4eu8, 0x47u8, 0x0au8],
    {
        let mut out: Vec<u8> = Vec::new();
        out.push(0x50);
        out.push(0x49);
        out.push(0x4e);
        out.push(0x47);
        out.push(0x0a);
        assert(out@ =~= seq![0x50u8, 0x49u8, 0x4eu8, 0x47u8, 0x0au8]);
        out
    }

    fn lose_connection(&mut self) -> (step: ClientStep)
        ensures
            (final(self)@, step@) == disconnect(old(self)@),
    {
        let cancel = self.remote_add.is_some();
        self.phase = ClientPhase::Disconnected;
        self.remote_add = None;
        ClientStep {
            next: ClientNext::Connect,
            deliver: None,
            cancel_pinger: cancel,
            start_pinger: false,
        }
    }

    fn take_datagram(&mut self, payload: &String, source: &String) -> (step: ClientStep)
        requires
            old(self).phase == ClientPhase::Streaming,
        ensures
            (final(self)@, step@) == datagram_step(old(self)@, payload@, source@),
    {
        let deliver = StockQuote::from_string(payload.as_str());
        let (known, same) = match &self.remote_add {
            Some(a) => (true, *a == *source),
            None => (false, false),
        };
        if !same {
            self.remote_add = Some(source.clone());
        }
        ClientStep {
            next: ClientNext::Receive,
            deliver,
            cancel_pinger: known && !same,
            start_pinger: !same,
        }
    }

    /// Takes one event of the session and says what to do next.
    pub fn get_quote_stream(&mut self, event: &ClientEvent) -> (step: ClientStep)
        ensures
            (final(self)@, step@) == client_step(old(self)@, *event),
    {
        match self.phase {
            ClientPhase::Disconnected => match event {
                ClientEvent::Connected => {
                    self.phase = ClientPhase::Subscribing;
                    only(ClientNext::Subscribe)
                },
                ClientEvent::ConnectFailed => only(ClientNext::WaitThenConnect),
                _ => only(ClientNext::Connect),
            },
            ClientPhase::Subscribing => match event {
                ClientEvent::ResponseLine(line) => {
                    if Self::response_is_ok(line.as_str()) {
                        self.phase = ClientPhase::Streaming;
                        only(ClientNext::Receive)
                    } else {
                        only(ClientNext::ReadResponse)
                    }
                },
                ClientEvent::ResponseWouldBlock => only(ClientNext::WaitThenReadResponse),
                ClientEvent::ResponseClosed => self.lose_connection(),
                _ => only(ClientNext::ReadResponse),
            },
            ClientPhase::Streaming => match event {
                ClientEvent::Datagram(payload, source) => self.take_datagram(payload, source),
                ClientEvent::EmptyDatagram => self.lose_connection(),
                ClientEvent::ReceiveFailed => self.lose_connection(),
                ClientEvent::PingerStopped => self.lose_connection(),
                _ => only(ClientNext::Receive),
            },
        }
    }
}

} // verus!
