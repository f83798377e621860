//! Relative timelocks with an experimental flag bit: the witness script that
//! enforces one, the address that pays to it, and the transaction that spends
//! from it.

pub mod address;
pub mod cli;
pub mod command;
pub mod decimal;
pub mod encoding;
pub mod network;
pub mod script;
pub mod sequence;
pub mod transaction;
