//! Session engine of a stock-quote streaming service: the quote record and
//! its wire text, the control protocol of a server session, the streaming
//! worker's liveness rules, and the client's session machine.

pub mod cli;
pub mod client;
pub mod decimal;
pub mod errors;
pub mod generator;
pub mod quote;
pub mod server;
pub mod stream;
pub mod text;
