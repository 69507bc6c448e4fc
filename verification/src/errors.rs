//! Errors of the quote record.

use crate::text::{append_chars, chars_of, string_of};
use vstd::prelude::*;

verus! {

/// What can go wrong when a quote is read or written.
#[derive(Debug, Clone, PartialEq, Eq)]
pub enum QuoteGeneratorError {
    /// A quote, or the list of tickers, could not be read.
    BadParseQuote(String),
    /// The time stamp of a quote names no date.
    BadParseTimestampQuote(String),
}

impl QuoteGeneratorError {
    /// The detail that the error carries.
    pub open spec fn detail(&self) -> Seq<char> {
        match self {
            QuoteGeneratorError::BadParseQuote(d) => d@,
            QuoteGeneratorError::BadParseTimestampQuote(d) => d@,
        }
    }

    /// The text that introduces errors of this kind.
    pub open spec fn heading(&self) -> Seq<char> {
        match self {
            QuoteGeneratorError::BadParseQuote(_) => "Bad parse quote: "@,
            QuoteGeneratorError::BadParseTimestampQuote(_) => "Bad parse timestamp: "@,
        }
    }

    /// The error as one line of text: its heading, then its detail.
    pub fn message(&self) -> (out: String)
        ensures
            out@ == self.heading() + self.detail(),
    {
        let (head, detail) = match self {
            QuoteGeneratorError::BadParseQuote(d) => ("Bad parse quote: ", d),
            QuoteGeneratorError::BadParseTimestampQuote(d) => ("Bad parse timestamp: ", d),
        };
        let mut text = chars_of(head);
        let tail = chars_of(detail.as_str());
        append_chars(&mut text, &tail);
        string_of(&text)
    }
}

/// What can go wrong in a server session and its workers.
#[derive(Debug, Clone, PartialEq, Eq)]
pub enum QuoteStreamServerError {
    /// A socket could not be bound, or failed.
    BadNetworkBindSocket(String),
    /// A connection could not be accepted.
    BadCreateTcpStream(String),
    /// The generator could not publish a quote.
    GeneratorQuoteError(String),
    /// The clock could not be read.
    BadSetSystemTimeError(String),
    /// The state of a worker could not be changed.
    ChangeThreadStateError(String),
    /// The bus gave no quote: its sender is gone.
    ReceiveQuoteError(String),
}

impl QuoteStreamServerError {
    /// The detail that the error carries.
    pub open spec fn detail(&self) -> Seq<char> {
        match self {
            QuoteStreamServerError::BadNetworkBindSocket(d) => d@,
            QuoteStreamServerError::BadCreateTcpStream(d) => d@,
            QuoteStreamServerError::GeneratorQuoteError(d) => d@,
            QuoteStreamServerError::BadSetSystemTimeError(d) => d@,
            QuoteStreamServerError::ChangeThreadStateError(d) => d@,
            QuoteStreamServerError::ReceiveQuoteError(d) => d@,
        }
    }

    /// The text that introduces errors of this kind.
    pub open spec fn heading(&self) -> Seq<char> {
        match self {
            QuoteStreamServerError::BadNetworkBindSocket(_) => "Bad network bind socket: "@,
            QuoteStreamServerError::BadCreateTcpStream(_) => "Bad network create TcpStream: "@,
            QuoteStreamServerError::GeneratorQuoteError(_) => "Generate quote error: "@,
            QuoteStreamServerError::BadSetSystemTimeError(_) => "Bad set system time: "@,
            QuoteStreamServerError::ChangeThreadStateError(_) => "State change error: "@,
            QuoteStreamServerError::ReceiveQuoteError(_) => "Receive quote error: "@,
        }
    }

    /// The error as one line of text: its heading, then its detail.
    pub fn message(&self) -> (out: String)
        ensures
            out@ == self.heading() + self.detail(),
    {
        let (head, detail) = match self {
            QuoteStreamServerError::BadNetworkBindSocket(d) => ("Bad network bind socket: ", d),
            QuoteStreamServerError::BadCreateTcpStream(d) => (
                "Bad network create TcpStream: ",
                d,
            ),
            QuoteStreamServerError::GeneratorQuoteError(d) => ("Generate quote error: ", d),
            QuoteStreamServerError::BadSetSystemTimeError(d) => ("Bad set system time: ", d),
            QuoteStreamServerError::ChangeThreadStateError(d) => ("State change error: ", d),
            QuoteStreamServerError::ReceiveQuoteError(d) => ("Receive quote error: ", d),
        };
        let mut text = chars_of(head);
        let tail = chars_of(detail.as_str());
        append_chars(&mut text, &tail);
        string_of(&text)
    }
}

/// What can go wrong in a client session.
#[derive(Debug, Clone, PartialEq, Eq)]
pub enum QuoteClientError {
    /// A socket could not be bound or connected, or failed.
    BadNetworkBindSocket(String),
    /// An address could not be read.
    AddressParseError(String),
}

impl QuoteClientError {
    /// The detail that the error carries.
    pub open spec fn detail(&self) -> Seq<char> {
        match self {
            QuoteClientError::BadNetworkBindSocket(d) => d@,
            QuoteClientError::AddressParseError(d) => d@,
        }
    }

    /// The text that introduces errors of this kind.
    pub open spec fn heading(&self) -> Seq<char> {
        match self {
            QuoteClientError::BadNetworkBindSocket(_) => "Bad network bind socket: "@,
            QuoteClientError::AddressParseError(_) => "Error parse network address: "@,
        }
    }

    /// The error as one line of text: its heading, then its detail.
    pub fn message(&self) -> (out: String)
        ensures
            out@ == self.heading() + self.detail(),
    {
        let (head, detail) = match self {
            QuoteClientError::BadNetworkBindSocket(d) => ("Bad network bind socket: ", d),
            QuoteClientError::AddressParseError(d) => ("Error parse network address: ", d),
        };
        let mut text = chars_of(head);
        let tail = chars_of(detail.as_str());
        append_chars(&mut text, &tail);
        string_of(&text)
    }
}

} // verus!
