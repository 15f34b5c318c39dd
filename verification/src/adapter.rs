//! The adapter itself: what a wallet offers, read from the values that the
//! host reflects; the state of the connection and how notifications move
//! it; and the requests to a wallet with the checks on what comes back.

pub mod errors;
pub mod host;
pub mod semver;
pub mod wallet_account;
pub mod sign_tx;
pub mod features;
pub mod events;
pub mod sign_message;
pub mod sign_in;
pub mod wallet;
pub mod connection;
pub mod storage;
pub mod wallet_adapter;
