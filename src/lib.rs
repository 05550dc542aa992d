//! A counted greeting service's request logic and a printer of bounded
//! integer sequences.

pub mod numbers;
pub mod server;
