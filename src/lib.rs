//! A single global counter kept in a program-owned account at a
//! program-derived address, with the two operations `initialize` and `ping`.

pub mod account;
pub mod address;
pub mod instructions;
pub mod laws;

pub use account::{Counter, LedgerAccount};
pub use address::derive_address;
pub use instructions::{initialize, ping, read_count, CounterError, Initialize, Ping};
