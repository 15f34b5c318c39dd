//! The identifiers of the wallet standard as constants.

use vstd::prelude::*;

verus! {

/// The window event by which an application announces itself.
pub const WINDOW_APP_READY_EVENT_TYPE: &'static str = "wallet-standard:app-ready";

/// The window event by which a wallet registers itself.
pub const WINDOW_REGISTER_WALLET_EVENT_TYPE: &'static str = "wallet-standard:register-wallet";

/// `standard:events`
pub const STANDARD_EVENTS_IDENTIFIER: &'static str = "standard:events";

/// `standard:connect`
pub const STANDARD_CONNECT_IDENTIFIER: &'static str = "standard:connect";

/// `standard:disconnect`
pub const STANDARD_DISCONNECT_IDENTIFIER: &'static str = "standard:disconnect";

/// `solana:signAndSendTransaction`
pub const SOLANA_SIGN_AND_SEND_TRANSACTION_IDENTIFIER: &'static str =
    "solana:signAndSendTransaction";

/// `solana:signTransaction`
pub const SOLANA_SIGN_TRANSACTION_IDENTIFIER: &'static str = "solana:signTransaction";

/// `solana:signAllTransactions`
pub const SOLANA_SIGN_ALL_TRANSACTIONS_IDENTIFIER: &'static str = "solana:signAllTransactions";

/// `solana:signIn`
pub const SOLANA_SIGN_IN_IDENTIFIER: &'static str = "solana:signIn";

/// `solana:signMessage`
pub const SOLANA_SIGN_MESSAGE_IDENTIFIER: &'static str = "solana:signMessage";

} // verus!
