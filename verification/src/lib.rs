//! Client-side core of a wallet-standard adapter for Solana wallets:
//! the Sign-In-With-Solana message model, the wallet capability parser,
//! the connection state machine and the validation of signing responses.
//!
//! Everything in this crate works on plain values. Reading a wallet object
//! out of the browser and calling its callbacks is left to the embedding
//! program, which hands the reflected values to the functions found here.

pub mod text;
pub mod time;
pub mod message;
pub mod round_trip;
pub mod codec;
pub mod base;
pub mod common;
pub mod adapter;
