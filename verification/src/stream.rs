//! The two workers of a streaming session: the one that applies quotes from
//! the bus to the subscription, and the one that sends the subscription to
//! the client and watches for its keep-alive probes.

use crate::decimal::{digits, is_float_text};
use crate::errors::QuoteStreamServerError;
use crate::quote::{
    blank_quote, blank_quotes, datagram, decode_text, lemma_decode_datagram, quote_views,
    well_formed, QuoteView, StockQuote,
};
use crate::server::{
    line_step, session_open, stream_args, QuoteServerThreadState, SessionPhase, SessionView,
};
use crate::text::{
    chars_of, contains, contains_chars, free_of, is_space, lemma_prefix_len, lemma_split_free,
    lemma_tokens_non_space, same_chars, split_on, tokens,
};
use vstd::prelude::*;

verus! {

/// Seconds that the streamer waits for a probe before it gives the attempt
/// up.
pub const UDP_READ_TIMEOUT_SECOND: u64 = 6;

/// Seconds between two emissions of the subscription.
pub const UDP_SEND_PERIOD: u64 = 2;

/// Seconds of silence from the client that the streamer bears.
pub const PING_READ_TIMEOUT: u64 = 5;

/// The streamer's memory: when the client was last heard, in seconds since
/// the Unix epoch.
#[derive(Debug, Clone, Copy, PartialEq, Eq, Structural)]
pub struct QuoteStream {
    pub keep_alive_timestamp: u64,
}

/// How a worker ended.
#[derive(Debug, Clone, Copy, PartialEq, Eq, Structural)]
pub enum QuoteStreamResult {
    Canceled,
}

/// What the streamer got from one attempt to receive.
#[derive(Debug, Clone, PartialEq, Eq)]
pub struct Probe {
    /// The payload, as text.
    pub payload: String,
    /// The address it came from, as text.
    pub source: String,
}

/// What the streamer does after one round.
#[derive(Debug, Clone, Copy, PartialEq, Eq, Structural)]
pub struct StreamRound {
    /// The streamer's state after the round.
    pub state: QuoteServerThreadState,
    /// The streamer leaves its loop.
    pub exit: bool,
}

/// An entry of the subscription after `quote` came from the bus: an entry of
/// the same ticker takes its price, volume and time stamp; any other entry
/// stays.
pub open spec fn updated(entry: QuoteView, quote: QuoteView) -> QuoteView {
    if entry.ticker == quote.ticker {
        QuoteView { ticker: entry.ticker, ..quote }
    } else {
        entry
    }
}

/// The subscription after `quote` came from the bus.
pub open spec fn applied(snapshot: Seq<QuoteView>, quote: QuoteView) -> Seq<QuoteView> {
    snapshot.map_values(|e: QuoteView| updated(e, quote))
}

/// The tickers of a subscription, in order.
pub open spec fn tickers_of(snapshot: Seq<QuoteView>) -> Seq<Seq<char>> {
    snapshot.map_values(|e: QuoteView| e.ticker)
}

/// The datagrams of one emission: one for each entry, in order.
pub open spec fn emission(snapshot: Seq<QuoteView>) -> Seq<Seq<u8>> {
    snapshot.map_values(|e: QuoteView| datagram(e))
}

/// A payload from `source` is a keep-alive probe of the client at `client`:
/// it is not empty, holds `PING`, and the two addresses are the same text.
pub open spec fn is_keep_alive(payload: Seq<char>, source: Seq<char>, client: Seq<char>) -> bool {
    payload.len() > 0 && contains(payload, "PING"@) && source == client
}

/// The client, last heard at `last`, has been silent for too long at `now`.
pub open spec fn silent_too_long(last: u64, now: u64) -> bool {
    now - last > PING_READ_TIMEOUT
}

/// The time the client was last heard, after a receive attempt at `now`.
pub open spec fn heard(
    last: u64,
    probe: Option<(Seq<char>, Seq<char>)>,
    client: Seq<char>,
    now: u64,
) -> u64 {
    match probe {
        Some((payload, source)) => if is_keep_alive(payload, source, client) {
            now
        } else {
            last
        },
        None => last,
    }
}

/// The streamer's state after a round that ended at `now`, the client last
/// heard at `last`.
pub open spec fn round_state(
    state: QuoteServerThreadState,
    last: u64,
    now: u64,
) -> QuoteServerThreadState {
    if silent_too_long(last, now) {
        state.cancelled()
    } else {
        state
    }
}

/// Every entry of the subscription is a quote that its wire text can carry.
pub open spec fn snapshot_wf(snapshot: Seq<QuoteView>) -> bool {
    forall|i: int| 0 <= i < snapshot.len() ==> well_formed(#[trigger] snapshot[i])
}

/// Applying a quote changes no ticker of the subscription, nor their order.
pub proof fn lemma_applied_keeps_tickers(snapshot: Seq<QuoteView>, quote: QuoteView)
    ensures
        tickers_of(applied(snapshot, quote)) == tickers_of(snapshot),
{
    assert(tickers_of(applied(snapshot, quote)) =~= tickers_of(snapshot));
}

/// After a quote is applied, every entry of its ticker holds that quote, and
/// every other entry is as it was.
pub proof fn lemma_applied_entries(snapshot: Seq<QuoteView>, quote: QuoteView, i: int)
    requires
        0 <= i < snapshot.len(),
    ensures
        applied(snapshot, quote).len() == snapshot.len(),
        snapshot[i].ticker == quote.ticker ==> applied(snapshot, quote)[i] == quote,
        snapshot[i].ticker != quote.ticker ==> applied(snapshot, quote)[i] == snapshot[i],
{
}

/// An emission holds one datagram for each entry of the subscription, and
/// the datagram of a well-formed entry reads back as that entry: a quote
/// whose ticker is subscribed.
pub proof fn lemma_emission_decodes(snapshot: Seq<QuoteView>, i: int)
    requires
        0 <= i < snapshot.len(),
        well_formed(snapshot[i]),
    ensures
        emission(snapshot).len() == snapshot.len(),
        decode_text(vstd::utf8::decode_utf8(emission(snapshot)[i])) == Some(snapshot[i]),
        tickers_of(snapshot).contains(snapshot[i].ticker),
{
    lemma_decode_datagram(snapshot[i]);
    assert(tickers_of(snapshot)[i] == snapshot[i].ticker);
}

/// A subscription of blank quotes is well-formed if no ticker holds `|` or
/// a newline.
pub proof fn lemma_blank_quotes_wf(tickers: Seq<Seq<char>>)
    requires
        forall|i: int|
            0 <= i < tickers.len() ==> free_of(#[trigger] tickers[i], '|') && free_of(
                tickers[i],
                '\n',
            ),
    ensures
        snapshot_wf(blank_quotes(tickers)),
{
    reveal_strlit("0");
    let zero = "0"@;
    assert(digits()(zero[0]));
    lemma_prefix_len(zero, digits(), 1);
    assert(is_float_text(zero));
    assert forall|i: int| 0 <= i < tickers.len() implies well_formed(
        #[trigger] blank_quotes(tickers)[i],
    ) by {
        assert(blank_quotes(tickers)[i] == blank_quote(tickers[i]));
    }
}

/// The subscription that an accepted stream command gives is well-formed if
/// its ticker list holds no `|`.
pub proof fn lemma_stream_subscription_wf(s: SessionView, line: Seq<char>)
    requires
        session_open(s),
        tokens(line).len() >= 1,
        tokens(line)[0] == "STREAM"@ || tokens(line)[0] == "RESTREAM"@,
        stream_args(tokens(line)) is Some,
        free_of(tokens(line)[2], '|'),
    ensures
        line_step(s, line).0.phase == SessionPhase::Streaming,
        snapshot_wf(line_step(s, line).0.subscription),
{
    let tickers = tokens(line)[2];
    lemma_tokens_non_space(line);
    assert forall|j: int| 0 <= j < tickers.len() implies tickers[j] != '\n' by {
        assert(!is_space(tokens(line)[2][j]));
    }
    lemma_split_free(tickers, ',', '|');
    lemma_split_free(tickers, ',', '\n');
    lemma_blank_quotes_wf(split_on(tickers, ','));
}

/// Applying a quote whose price is a floating-point literal keeps a
/// well-formed subscription well-formed.
pub proof fn lemma_applied_wf(snapshot: Seq<QuoteView>, quote: QuoteView)
    requires
        snapshot_wf(snapshot),
        is_float_text(quote.price),
    ensures
        snapshot_wf(applied(snapshot, quote)),
{
    assert forall|i: int| 0 <= i < snapshot.len() implies well_formed(
        #[trigger] applied(snapshot, quote)[i],
    ) by {
        assert(well_formed(snapshot[i]));
    }
}

/// A client that has been silent for too long has its running streamer
/// cancelled at the end of the round, whatever else happened in it.
pub proof fn lemma_silence_cancels(state: QuoteServerThreadState, last: u64, now: u64)
    requires
        silent_too_long(last, now),
    ensures
        round_state(state, last, now).ending(),
        state == QuoteServerThreadState::Running ==> round_state(state, last, now)
            == QuoteServerThreadState::Cancelled,
{
}

impl QuoteStream {
    /// A streamer that starts at `now`: the client counts as heard then.
    pub fn new(now: u64) -> (s: Self)
        ensures
            s.keep_alive_timestamp == now,
    {
        QuoteStream { keep_alive_timestamp: now }
    }

    /// One round of the applier. With a quote from the bus, the entries of
    /// its ticker take its values, and the applier's next state is returned:
    /// `Stopped` when it has been asked to end, else the state it had. With
    /// no quote, because the bus has failed, the subscription stays and the
    /// applier fails.
    pub fn thread_update_tickers(
        tickers: &mut Vec<StockQuote>,
        received: Option<&StockQuote>,
        state: QuoteServerThreadState,
    ) -> (r: Result<QuoteServerThreadState, QuoteStreamServerError>)
        ensures
            match received {
                Some(quote) => quote_views(final(tickers)@) == applied(
                    quote_views(old(tickers)@),
                    quote@,
                ) && r == Ok::<QuoteServerThreadState, QuoteStreamServerError>(
                    if state.ending() {
                        QuoteServerThreadState::Stopped
                    } else {
                        state
                    },
                ),
                None => quote_views(final(tickers)@) == quote_views(old(tickers)@) && r is Err
                    && r->Err_0 is ReceiveQuoteError && r->Err_0.detail()
                    == "Error receiving quote"@,
            },
    {
        match received {
            Some(quote) => {
                Self::apply_update(tickers, quote);
                Ok(state.acknowledge())
            },
            None => Err(
                QuoteStreamServerError::ReceiveQuoteError("Error receiving quote".to_owned()),
            ),
        }
    }

    /// Writes `quote` into the entries of its ticker.
    pub fn apply_update(tickers: &mut Vec<StockQuote>, quote: &StockQuote)
        ensures
            quote_views(final(tickers)@) == applied(quote_views(old(tickers)@), quote@),
    {
        let n = tickers.len();
        let mut i: usize = 0;
        while i < n
            invariant
                i <= n,
                n == tickers.len(),
                n == old(tickers).len(),
                forall|j: int| 0 <= j < i ==> (#[trigger] tickers@[j])@ == updated(old(tickers)@[j]@, quote@),
                forall|j: int| i <= j < n ==> tickers@[j] == old(tickers)@[j],
            decreases n - i,
        {
            if tickers[i].ticker == quote.ticker {
                let entry = StockQuote {
                    ticker: tickers[i].ticker.clone(),
                    price: quote.price.clone(),
                    volume: quote.volume,
                    timestamp: quote.timestamp,
                };
                tickers.set(i, entry);
            }
            i += 1;
        }
        assert(quote_views(tickers@) =~= applied(quote_views(old(tickers)@), quote@));
    }

    /// The datagrams of one emission: one for each entry of the
    /// subscription, in its order.
    pub fn datagrams(tickers: &Vec<StockQuote>) -> (out: Vec<Vec<u8>>)
        ensures
            out@.map_values(|d: Vec<u8>| d@) == emission(quote_views(tickers@)),
    {
        let mut out: Vec<Vec<u8>> = Vec::new();
        let mut i: usize = 0;
        while i < tickers.len()
            invariant
                i <= tickers.len(),
                out.len() == i,
                forall|j: int| 0 <= j < i ==> (#[trigger] out@[j])@ == datagram(tickers@[j]@),
            decreases tickers.len() - i,
        {
            out.push(tickers[i].to_bytes());
            i += 1;
        }
        assert(out@.map_values(|d: Vec<u8>| d@) =~= emission(quote_views(tickers@)));
        out
    }

    /// Whether a payload from `source` is a keep-alive probe of the client
    /// at `client_adr`.
    pub fn accepts_probe(payload: &str, source: &str, client_adr: &str) -> (r: bool)
        ensures
            r == is_keep_alive(payload@, source@, client_adr@),
    {
        let text = chars_of(payload);
        let ping = chars_of("PING");
        let from = chars_of(source);
        let client = chars_of(client_adr);
        text.len() > 0 && contains_chars(&text, &ping) && same_chars(&from, &client)
    }

    /// Whether the client has been silent for too long at `now`.
    pub fn is_expired(&self, now: u64) -> (r: bool)
        ensures
            r == silent_too_long(self.keep_alive_timestamp, now),
    {
        now > self.keep_alive_timestamp && now - self.keep_alive_timestamp > PING_READ_TIMEOUT
    }

    /// One round of the streamer, after its emission and its one attempt to
    /// receive, which gave `probe` or failed. A keep-alive probe of the
    /// client sets the time it was last heard to `now`; then, if the client
    /// has been silent for too long, the streamer is cancelled; it leaves
    /// its loop when its state says that it ends.
    pub fn thread_stream(
        &mut self,
        state: QuoteServerThreadState,
        probe: Option<&Probe>,
        client_adr: &str,
        now: u64,
    ) -> (round: StreamRound)
        ensures
            final(self).keep_alive_timestamp == heard(
                old(self).keep_alive_timestamp,
                match probe {
                    Some(p) => Some((p.payload@, p.source@)),
                    None => None,
                },
                client_adr@,
                now,
            ),
            round.state == round_state(state, final(self).keep_alive_timestamp, now),
            round.exit == round.state.ending(),
    {
        match probe {
            Some(p) => {
                if Self::accepts_probe(p.payload.as_str(), p.source.as_str(), client_adr) {
                    self.keep_alive_timestamp = now;
                }
            },
            None => {},
        }
        let next = if self.is_expired(now) {
            state.cancel()
        } else {
            state
        };
        StreamRound { state: next, exit: next.should_exit() }
    }

    /// The end of the streamer: the applier is asked to end, and the
    /// streamer reports that it was cancelled.
    pub fn finish(applier: QuoteServerThreadState) -> (r: (
        QuoteServerThreadState,
        QuoteStreamResult,
    ))
        ensures
            r.0 == applier.cancelled(),
            r.0.ending(),
            r.1 == QuoteStreamResult::Canceled,
    {
        (applier.cancel(), QuoteStreamResult::Canceled)
    }
}

} // verus!
