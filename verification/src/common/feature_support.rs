//! Which features of the wallet standard a wallet or an account offers.

use vstd::prelude::*;

verus! {

/// One flag for each feature of the wallet standard.
#[derive(Debug, PartialEq, Eq, Structural, PartialOrd, Ord, Clone, Copy, Hash)]
pub struct FeatureSupport {
    /// `standard:connect`
    pub connect: bool,
    /// `standard:disconnect`
    pub disconnect: bool,
    /// `standard:events`
    pub events: bool,
    /// `solana:signIn`
    pub sign_in: bool,
    /// `solana:signMessage`
    pub sign_message: bool,
    /// `solana:signAndSendTransaction`
    pub sign_and_send_tx: bool,
    /// `solana:signTransaction`
    pub sign_tx: bool,
    /// `solana:signAllTransactions`
    pub sign_all_tx: bool,
}

/// The record in which no feature is offered.
pub open spec fn no_features() -> FeatureSupport {
    FeatureSupport {
        connect: false,
        disconnect: false,
        events: false,
        sign_in: false,
        sign_message: false,
        sign_and_send_tx: false,
        sign_tx: false,
        sign_all_tx: false,
    }
}

impl Default for FeatureSupport {
    /// The record in which no feature is offered.
    fn default() -> (support: FeatureSupport)
        ensures
            support == no_features(),
    {
        FeatureSupport {
            connect: false,
            disconnect: false,
            events: false,
            sign_in: false,
            sign_message: false,
            sign_and_send_tx: false,
            sign_tx: false,
            sign_all_tx: false,
        }
    }
}

} // verus!
