//! The wallet standard as Solana uses it: the four clusters, the
//! commitment levels, the feature identifiers, the sign-in input with
//! typed fields, and the description of a wallet and its accounts.

pub mod account;
pub mod chains;
pub mod clusters;
pub mod commitment;
pub mod errors;
pub mod events;
pub mod feature_support;
pub mod signin;
pub mod standardized_events;
pub mod utils;
pub mod version;
pub mod wallet;
