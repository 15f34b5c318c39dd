//! Identifiers of the window events and of the features of the wallet standard.

use vstd::prelude::*;

verus! {

/// The two window events by which an application and a wallet find each other.
#[derive(Debug, PartialEq, Eq, Structural, PartialOrd, Ord, Hash, Clone, Copy)]
pub enum WindowEvent {
    /// The application announces that it is ready.
    AppReady,
    /// A wallet registers itself.
    Register,
}

impl WindowEvent {
    /// The identifier of the event as text.
    pub open spec fn identifier_text(&self) -> Seq<char> {
        match self {
            WindowEvent::AppReady => "wallet-standard:app-ready"@,
            WindowEvent::Register => "wallet-standard:register-wallet"@,
        }
    }

    /// The identifier under which the event is dispatched.
    pub fn event_identifier(&self) -> (r: &str)
        ensures
            r@ == self.identifier_text(),
    {
        match self {
            WindowEvent::AppReady => "wallet-standard:app-ready",
            WindowEvent::Register => "wallet-standard:register-wallet",
        }
    }
}

/// The feature identifiers of a namespace. Those of the `standard`
/// namespace are the same for every network.
pub trait StandardFeatures {
    /// The identifier of the namespace itself.
    fn namespace(&self) -> &str;

    /// The identifier of the connect feature.
    fn connect(&self) -> (r: &str)
        ensures
            r@ == "standard:connect"@,
    {
        "standard:connect"
    }

    /// The identifier of the disconnect feature.
    fn disconnect(&self) -> (r: &str)
        ensures
            r@ == "standard:disconnect"@,
    {
        "standard:disconnect"
    }

    /// The identifier of the events feature.
    fn events(&self) -> (r: &str)
        ensures
            r@ == "standard:events"@,
    {
        "standard:events"
    }

    /// The identifier of the listener registration.
    fn on(&self) -> (r: &str)
        ensures
            r@ == "standard:on"@,
    {
        "standard:on"
    }

    /// The identifier of the sign-in feature.
    fn sign_in(&self) -> &str;

    /// The identifier of the message signing feature.
    fn sign_message(&self) -> &str;

    /// The identifier of the transaction signing feature.
    fn sign_transaction(&self) -> &str;

    /// The identifier of the feature that signs and sends a transaction.
    fn sign_and_send_transaction(&self) -> &str;
}

} // verus!
