//! The control session of one client connection: the commands it accepts,
//! the replies it gives, and what it asks of its two workers.

use crate::errors::QuoteStreamServerError;
use crate::quote::{blank_quotes, quote_views, texts, QuoteView, StockQuote};
use crate::text::{
    chars_of, is_text, matches_at, pieces, slice_of, split_on, split_tokens, starts_with,
    string_of, tokens,
};
use vstd::prelude::*;

verus! {

/// The state of a worker, as its supervisor and the worker itself set it.
#[derive(Clone, Copy, Debug, PartialEq, Eq, Structural)]
pub enum QuoteServerThreadState {
    Running,
    Cancelled,
    Stopped,
}

impl QuoteServerThreadState {
    /// The state after a request to cancel: a running worker becomes
    /// cancelled, any other state stays.
    pub open spec fn cancelled(self) -> Self {
        match self {
            QuoteServerThreadState::Running => QuoteServerThreadState::Cancelled,
            other => other,
        }
    }

    /// The worker has been asked to end, or has ended.
    pub open spec fn ending(self) -> bool {
        self != QuoteServerThreadState::Running
    }

    /// Starts a worker: `Running`, unless it is running already.
    pub fn start(self) -> (r: Option<Self>)
        ensures
            r == if self == QuoteServerThreadState::Running {
                None
            } else {
                Some(QuoteServerThreadState::Running)
            },
    {
        match self {
            QuoteServerThreadState::Running => None,
            _ => Some(QuoteServerThreadState::Running),
        }
    }

    /// Asks a worker to end. Asking twice is asking once.
    pub fn cancel(self) -> (r: Self)
        ensures
            r == self.cancelled(),
            r.ending(),
            r.cancelled() == r,
    {
        match self {
            QuoteServerThreadState::Running => QuoteServerThreadState::Cancelled,
            other => other,
        }
    }

    /// Whether a worker that reads this state has to leave its loop.
    pub fn should_exit(self) -> (r: bool)
        ensures
            r == self.ending(),
    {
        match self {
            QuoteServerThreadState::Running => false,
            _ => true,
        }
    }

    /// The state that a worker leaves behind when it has seen that it must
    /// end: `Stopped`. A running worker stays running.
    pub fn acknowledge(self) -> (r: Self)
        ensures
            r == if self.ending() {
                QuoteServerThreadState::Stopped
            } else {
                self
            },
    {
        match self {
            QuoteServerThreadState::Running => QuoteServerThreadState::Running,
            _ => QuoteServerThreadState::Stopped,
        }
    }
}

/// Where a control session stands.
#[derive(Clone, Copy, Debug, PartialEq, Eq, Structural)]
pub enum SessionPhase {
    /// The connection is open and nothing was written yet.
    Idle,
    /// Greeted; no stream is running.
    AwaitCommand,
    /// A stream is running.
    Streaming,
    /// The peer is gone.
    Terminated,
}

/// The control session of one connection.
#[derive(Debug)]
pub struct QuoteServer {
    pub phase: SessionPhase,
    /// One quote for each subscribed ticker, in the order asked for.
    pub subscribe_tickers: Vec<StockQuote>,
    /// The client's UDP endpoint, `host:port`.
    pub client_addr: String,
}

/// What a session does in answer to one input.
#[derive(Debug, Clone, PartialEq, Eq)]
pub struct SessionStep {
    /// The line to write back, if any.
    pub reply: Option<String>,
    /// The running workers are to be cancelled.
    pub cancel_workers: bool,
    /// A new pair of workers is to be started on the session's subscription
    /// and client endpoint, after any cancelling.
    pub start_workers: bool,
}

/// A session as plain values.
pub ghost struct SessionView {
    pub phase: SessionPhase,
    pub subscription: Seq<QuoteView>,
    pub client_addr: Seq<char>,
}

/// A step as plain values.
pub ghost struct StepView {
    pub reply: Option<Seq<char>>,
    pub cancel_workers: bool,
    pub start_workers: bool,
}

impl View for QuoteServer {
    type V = SessionView;

    open spec fn view(&self) -> SessionView {
        SessionView {
            phase: self.phase,
            subscription: quote_views(self.subscribe_tickers@),
            client_addr: self.client_addr@,
        }
    }
}

impl View for SessionStep {
    type V = StepView;

    open spec fn view(&self) -> StepView {
        StepView {
            reply: match self.reply {
                Some(r) => Some(r@),
                None => None,
            },
            cancel_workers: self.cancel_workers,
            start_workers: self.start_workers,
        }
    }
}

/// A session holds a subscription only while it streams.
pub open spec fn session_wf(s: SessionView) -> bool {
    s.phase != SessionPhase::Streaming ==> s.subscription.len() == 0
}

/// The session takes commands.
pub open spec fn session_open(s: SessionView) -> bool {
    s.phase == SessionPhase::AwaitCommand || s.phase == SessionPhase::Streaming
}

/// The endpoint and the ticker list of a stream command, from its tokens:
/// after the verb exactly two tokens, the first of them `udp://` and then a
/// non-empty endpoint.
pub open spec fn stream_args(toks: Seq<Seq<char>>) -> Option<(Seq<char>, Seq<char>)> {
    if toks.len() == 3 && starts_with(toks[1], "udp://"@) && toks[1].len() > "udp://"@.len() {
        Some((toks[1].skip("udp://"@.len() as int), toks[2]))
    } else {
        None
    }
}

/// A step that only replies.
pub open spec fn reply_only(text: Seq<char>) -> StepView {
    StepView { reply: Some(text), cancel_workers: false, start_workers: false }
}

/// A step that does nothing.
pub open spec fn silent() -> StepView {
    StepView { reply: None, cancel_workers: false, start_workers: false }
}

/// What the acceptor is set up with.
#[derive(Debug, Clone, PartialEq, Eq)]
pub struct ServerPlan {
    /// The tickers that the generator emits, in their order.
    pub tickers: Vec<String>,
    /// The capacity of the quote bus: the number of tickers.
    pub bus_capacity: usize,
}

/// The session after its connection was opened, and the step it takes: an
/// idle session greets the client and awaits commands; any other session
/// does nothing.
pub open spec fn open_step(s: SessionView) -> (SessionView, StepView) {
    if s.phase == SessionPhase::Idle {
        (
            SessionView { phase: SessionPhase::AwaitCommand, ..s },
            reply_only("Welcome to quotation stream!\n"@),
        )
    } else {
        (s, silent())
    }
}

/// The session after a stream command with the tokens `toks`, and the step
/// it takes.
pub open spec fn stream_step(s: SessionView, toks: Seq<Seq<char>>) -> (SessionView, StepView) {
    match stream_args(toks) {
        Some((addr, tickers)) => (
            SessionView {
                phase: SessionPhase::Streaming,
                subscription: blank_quotes(split_on(tickers, ',')),
                client_addr: addr,
            },
            StepView {
                reply: Some("OK Stream\n"@),
                cancel_workers: s.phase == SessionPhase::Streaming,
                start_workers: true,
            },
        ),
        None => (s, reply_only("Error command stream\n"@)),
    }
}

/// The session after a stop command, and the step it takes.
pub open spec fn stop_step(s: SessionView) -> (SessionView, StepView) {
    if s.phase == SessionPhase::Streaming {
        (
            SessionView {
                phase: SessionPhase::AwaitCommand,
                subscription: Seq::empty(),
                client_addr: Seq::empty(),
            },
            StepView { reply: Some("OK Stop\n"@), cancel_workers: true, start_workers: false },
        )
    } else {
        (s, reply_only("Thread not running\n"@))
    }
}

/// The session after one line from the client, and the step it takes. A
/// session that is not open ignores the line.
pub open spec fn line_step(s: SessionView, line: Seq<char>) -> (SessionView, StepView) {
    let toks = tokens(line);
    if !session_open(s) || toks.len() == 0 {
        (s, silent())
    } else if toks[0] == "STREAM"@ || toks[0] == "RESTREAM"@ {
        stream_step(s, toks)
    } else if toks[0] == "STOP"@ {
        stop_step(s)
    } else {
        (s, reply_only("Error command\n"@))
    }
}

/// The session after its peer has gone, and the step it takes.
pub open spec fn close_step(s: SessionView) -> (SessionView, StepView) {
    (
        SessionView {
            phase: SessionPhase::Terminated,
            subscription: Seq::empty(),
            client_addr: Seq::empty(),
        },
        StepView {
            reply: None,
            cancel_workers: s.phase == SessionPhase::Streaming,
            start_workers: false,
        },
    )
}

/// A stream command whose endpoint does not begin with `udp://`, or that
/// names no endpoint at all, is answered with `Error command stream` and
/// changes nothing.
pub proof fn lemma_stream_needs_prefix(s: SessionView, line: Seq<char>)
    requires
        session_open(s),
        tokens(line).len() >= 1,
        tokens(line)[0] == "STREAM"@ || tokens(line)[0] == "RESTREAM"@,
        tokens(line).len() == 1 || !starts_with(tokens(line)[1], "udp://"@),
    ensures
        line_step(s, line).0 == s,
        line_step(s, line).1 == reply_only("Error command stream\n"@),
{
}

/// Every step keeps a well-formed session well-formed, and workers are
/// started only into a streaming session.
pub proof fn lemma_line_step_wf(s: SessionView, line: Seq<char>)
    requires
        session_wf(s),
    ensures
        session_wf(line_step(s, line).0),
        line_step(s, line).1.start_workers ==> line_step(s, line).0.phase
            == SessionPhase::Streaming,
        line_step(s, line).1.cancel_workers ==> s.phase == SessionPhase::Streaming,
{
}

/// Two stop commands in a row on a streaming session are answered with
/// `OK Stop` and then `Thread not running`.
pub proof fn lemma_stop_twice(s: SessionView, first: Seq<char>, second: Seq<char>)
    requires
        s.phase == SessionPhase::Streaming,
        tokens(first).len() >= 1 && tokens(first)[0] == "STOP"@,
        tokens(second).len() >= 1 && tokens(second)[0] == "STOP"@,
    ensures
        line_step(s, first).1.reply == Some("OK Stop\n"@),
        line_step(line_step(s, first).0, second).1.reply == Some("Thread not running\n"@),
{
    reveal_strlit("STOP");
    reveal_strlit("STREAM");
    reveal_strlit("RESTREAM");
    assert("STOP"@.len() != "STREAM"@.len());
    assert("STOP"@.len() != "RESTREAM"@.len());
}

/// Two accepted stream commands in a row are both answered with
/// `OK Stream`; the second has the workers of the first cancelled, and
/// leaves the subscription that it asks for.
pub proof fn lemma_stream_twice(s: SessionView, first: Seq<char>, second: Seq<char>)
    requires
        session_open(s),
        tokens(first).len() >= 1 && (tokens(first)[0] == "STREAM"@ || tokens(first)[0]
            == "RESTREAM"@),
        tokens(second).len() >= 1 && (tokens(second)[0] == "STREAM"@ || tokens(second)[0]
            == "RESTREAM"@),
        stream_args(tokens(first)) is Some,
        stream_args(tokens(second)) is Some,
    ensures
        line_step(s, first).1.reply == Some("OK Stream\n"@),
        line_step(line_step(s, first).0, second).1 == (StepView {
            reply: Some("OK Stream\n"@),
            cancel_workers: true,
            start_workers: true,
        }),
        line_step(line_step(s, first).0, second).0.subscription == blank_quotes(
            split_on(tokens(second)[2], ','),
        ),
{
}

fn reply(text: &str) -> (step: SessionStep)
    ensures
        step@ == reply_only(text@),
{
    SessionStep { reply: Some(text.to_owned()), cancel_workers: false, start_workers: false }
}

impl QuoteServer {
    /// A session on a connection that was just opened.
    pub fn new() -> (s: Self)
        ensures
            s@.phase == SessionPhase::Idle,
            s@.subscription.len() == 0,
            s@.client_addr.len() == 0,
            session_wf(s@),
    {
        QuoteServer {
            phase: SessionPhase::Idle,
            subscribe_tickers: Vec::new(),
            client_addr: String::new(),
        }
    }

    /// Plans the server from the text of the ticker file: the tickers are
    /// its lines, and the bus holds one quote for each. Without the text,
    /// because the file could not be read, the server does not start.
    pub fn run_quote_server(ticker_text: Option<&str>) -> (r: Result<
        ServerPlan,
        QuoteStreamServerError,
    >)
        ensures
            match ticker_text {
                Some(text) => r is Ok && texts(r->Ok_0.tickers@) == split_on(text@, '\n')
                    && r->Ok_0.bus_capacity == split_on(text@, '\n').len(),
                None => r is Err && r->Err_0 is BadCreateTcpStream && r->Err_0.detail()
                    == "No read tickers"@,
            },
    {
        match ticker_text {
            Some(text) => {
                let tickers = StockQuote::get_tickers(text);
                let bus_capacity = tickers.len();
                assert(texts(tickers@).len() == tickers@.len());
                Ok(ServerPlan { tickers, bus_capacity })
            },
            None => Err(QuoteStreamServerError::BadCreateTcpStream("No read tickers".to_owned())),
        }
    }

    /// Greets the client on a connection that was just opened.
    pub fn open(&mut self) -> (step: SessionStep)
        ensures
            (final(self)@, step@) == open_step(old(self)@),
    {
        match self.phase {
            SessionPhase::Idle => {
                self.phase = SessionPhase::AwaitCommand;
                reply("Welcome to quotation stream!\n")
            },
            _ => SessionStep { reply: None, cancel_workers: false, start_workers: false },
        }
    }

    /// The endpoint and the ticker list of a stream command, from all its
    /// tokens, the verb included.
    pub fn parse_cmd_stream(toks: &Vec<Vec<char>>) -> (r: Option<(String, String)>)
        ensures
            match r {
                Some((addr, tickers)) => stream_args(pieces(toks@)) == Some((addr@, tickers@)),
                None => stream_args(pieces(toks@)) is None,
            },
    {
        if toks.len() != 3 {
            return None;
        }
        assert(pieces(toks@)[1] == toks@[1]@);
        assert(pieces(toks@)[2] == toks@[2]@);
        let prefix = chars_of("udp://");
        let first = &toks[1];
        if !matches_at(first, &prefix, 0) || first.len() <= prefix.len() {
            return None;
        }
        let addr = slice_of(first, prefix.len(), first.len());
        assert(addr@ == first@.skip(prefix.len() as int));
        Some((string_of(&addr), string_of(&toks[2])))
    }

    /// Takes a stream command: on a well-formed one the session subscribes
    /// to its tickers, each with a blank quote, and streams to its
    /// endpoint; on any other one nothing changes.
    pub fn start_quote_stream(&mut self, toks: &Vec<Vec<char>>) -> (step: SessionStep)
        ensures
            (final(self)@, step@) == stream_step(old(self)@, pieces(toks@)),
    {
        match QuoteServer::parse_cmd_stream(toks) {
            Some((addr, tickers)) => {
                let cancel = self.phase == SessionPhase::Streaming;
                self.subscribe_tickers = StockQuote::get_tickers_subscribe(tickers.as_str());
                self.client_addr = addr;
                self.phase = SessionPhase::Streaming;
                SessionStep {
                    reply: Some("OK Stream\n".to_owned()),
                    cancel_workers: cancel,
                    start_workers: true,
                }
            },
            None => reply("Error command stream\n"),
        }
    }

    /// Takes a stop command: a streaming session drops its subscription and
    /// awaits commands; any other one only says that nothing runs.
    pub fn stop_quote_stream(&mut self) -> (step: SessionStep)
        ensures
            (final(self)@, step@) == stop_step(old(self)@),
    {
        if self.phase == SessionPhase::Streaming {
            self.subscribe_tickers = Vec::new();
            self.client_addr = String::new();
            self.phase = SessionPhase::AwaitCommand;
            assert(quote_views(self.subscribe_tickers@) == Seq::<QuoteView>::empty());
            SessionStep {
                reply: Some("OK Stop\n".to_owned()),
                cancel_workers: true,
                start_workers: false,
            }
        } else {
            reply("Thread not running\n")
        }
    }

    /// Takes one line from the client.
    pub fn handle_line(&mut self, line: &str) -> (step: SessionStep)
        ensures
            (final(self)@, step@) == line_step(old(self)@, line@),
    {
        let silent = SessionStep { reply: None, cancel_workers: false, start_workers: false };
        if self.phase != SessionPhase::AwaitCommand && self.phase != SessionPhase::Streaming {
            return silent;
        }
        let chars = chars_of(line);
        let toks = split_tokens(&chars);
        if toks.len() == 0 {
            return silent;
        }
        assert(pieces(toks@)[0] == toks@[0]@);
        let verb = &toks[0];
        if is_text(verb, "STREAM") || is_text(verb, "RESTREAM") {
            self.start_quote_stream(&toks)
        } else if is_text(verb, "STOP") {
            self.stop_quote_stream()
        } else {
            reply("Error command\n")
        }
    }

    /// The peer has gone, by end of input or by a read error: the session
    /// ends and its workers, if any, are to be cancelled.
    pub fn close(&mut self) -> (step: SessionStep)
        ensures
            (final(self)@, step@) == close_step(old(self)@),
    {
        let cancel = self.phase == SessionPhase::Streaming;
        self.subscribe_tickers = Vec::new();
        self.client_addr = String::new();
        self.phase = SessionPhase::Terminated;
        assert(quote_views(self.subscribe_tickers@) == Seq::<QuoteView>::empty());
        SessionStep { reply: None, cancel_workers: cancel, start_workers: false }
    }
}

} // verus!
