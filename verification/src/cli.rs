//! What the programs derive from their command-line values.

use crate::text::{append_chars, chars_of, find_from, first_index, is_text, slice_of, string_of};
use vstd::prelude::*;

verus! {

/// How much is logged.
#[derive(Debug, Clone, Copy, PartialEq, Eq, Structural)]
pub enum LogLevel {
    Debug,
    Error,
    Warn,
    Info,
}

/// The values a program runs on.
#[derive(Debug, Clone, PartialEq, Eq)]
pub struct CliArgs {
    /// The server's control address, `host:port`.
    pub server_addr: String,
    /// The UDP address: the host of `server_addr` and the UDP port.
    pub udp_addr: String,
    /// The path of the ticker file.
    pub tickers_file: String,
    pub log_level: LogLevel,
    /// The path of the log file.
    pub file_log: String,
}

/// The level that `name` stands for: `Info` for any name but `DEBUG`,
/// `ERROR` and `WARN`.
pub open spec fn level_of(name: Seq<char>) -> LogLevel {
    if name == "DEBUG"@ {
        LogLevel::Debug
    } else if name == "ERROR"@ {
        LogLevel::Error
    } else if name == "WARN"@ {
        LogLevel::Warn
    } else {
        LogLevel::Info
    }
}

/// The UDP address for a control address and a UDP port: what stands before
/// the first `:` of the control address, a `:`, and the port.
pub open spec fn udp_addr_of(server_addr: Seq<char>, udp_port: Seq<char>) -> Seq<char> {
    server_addr.take(first_index(server_addr, ':')) + seq![':'] + udp_port
}

impl CliArgs {
    /// The level that `name` stands for.
    pub fn log_level(name: &str) -> (level: LogLevel)
        ensures
            level == level_of(name@),
    {
        let text = chars_of(name);
        if is_text(&text, "DEBUG") {
            LogLevel::Debug
        } else if is_text(&text, "ERROR") {
            LogLevel::Error
        } else if is_text(&text, "WARN") {
            LogLevel::Warn
        } else {
            LogLevel::Info
        }
    }

    /// Whether `server_addr` holds a `:`, and so a host and a port.
    pub fn has_port(server_addr: &str) -> (r: bool)
        ensures
            r == (first_index(server_addr@, ':') < server_addr@.len()),
    {
        let text = chars_of(server_addr);
        assert(text@.skip(0) == text@);
        find_from(&text, 0, ':') < text.len()
    }

    /// The UDP address for a control address and a UDP port.
    pub fn udp_addr(server_addr: &str, udp_port: &str) -> (out: String)
        ensures
            out@ == udp_addr_of(server_addr@, udp_port@),
    {
        let text = chars_of(server_addr);
        assert(text@.skip(0) == text@);
        let k = find_from(&text, 0, ':');
        let mut out = slice_of(&text, 0, k);
        out.push(':');
        let port = chars_of(udp_port);
        append_chars(&mut out, &port);
        string_of(&out)
    }

    /// The values a program runs on, from what its command line gave.
    pub fn get_cli_args(
        server_addr: &str,
        udp_port: &str,
        tickers_file: &str,
        log_level: &str,
        log_file: &str,
    ) -> (args: Self)
        ensures
            args.server_addr@ == server_addr@,
            args.udp_addr@ == udp_addr_of(server_addr@, udp_port@),
            args.tickers_file@ == tickers_file@,
            args.log_level == level_of(log_level@),
            args.file_log@ == log_file@,
    {
        CliArgs {
            server_addr: server_addr.to_owned(),
            udp_addr: Self::udp_addr(server_addr, udp_port),
            tickers_file: tickers_file.to_owned(),
            log_level: Self::log_level(log_level),
            file_log: log_file.to_owned(),
        }
    }
}

} // verus!
