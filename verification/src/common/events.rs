//! The feature identifiers of the Solana namespace.

use crate::base::events::StandardFeatures;
use vstd::prelude::*;

verus! {

/// The features that a Solana wallet can offer.
#[derive(Debug, PartialEq, Eq, Structural, PartialOrd, Ord, Clone, Copy, Hash)]
pub enum SolanaStandardEvents {
    /// `standard:connect`
    Connect,
    /// `standard:disconnect`
    Disconnect,
    /// `standard:on`
    On,
    /// `solana:signIn`
    SignIn,
    /// `solana:signMessage`
    SignMessage,
    /// `solana:signTransaction`
    SignTransaction,
    /// `solana:signAndSendTransaction`
    SignAndSendTransaction,
}

impl Default for SolanaStandardEvents {
    /// The feature `Disconnect`.
    fn default() -> (event: SolanaStandardEvents)
        ensures
            event == SolanaStandardEvents::Disconnect,
    {
        SolanaStandardEvents::Disconnect
    }
}

impl StandardFeatures for SolanaStandardEvents {
    fn namespace(&self) -> (r: &str)
        ensures
            r@ == "standard:events"@,
    {
        "standard:events"
    }

    fn sign_in(&self) -> (r: &str)
        ensures
            r@ == "solana:signIn"@,
    {
        "solana:signIn"
    }

    fn sign_message(&self) -> (r: &str)
        ensures
            r@ == "solana:signMessage"@,
    {
        "solana:signMessage"
    }

    fn sign_transaction(&self) -> (r: &str)
        ensures
            r@ == "solana:signTransaction"@,
    {
        "solana:signTransaction"
    }

    fn sign_and_send_transaction(&self) -> (r: &str)
        ensures
            r@ == "solana:signAndSendTransaction"@,
    {
        "solana:signAndSendTransaction"
    }
}

impl SolanaStandardEvents {
    /// Whether the namespace knows a sign-in feature. It does.
    pub fn supports_sign_in(&self) -> (r: bool)
        ensures
            r,
    {
        true
    }
}

} // verus!
