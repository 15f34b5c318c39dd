//! What the adapter tells the application about the connection.

use crate::adapter::wallet_account::WalletAccount;
use crate::adapter::wallet_account::WalletAccountView;
use vstd::prelude::*;

verus! {

/// A change of the connection between the application and a wallet.
#[derive(Debug, Clone, PartialEq, Eq)]
pub enum WalletEvent {
    /// An account has been connected.
    Connected(WalletAccount),
    /// An account that was connected before has been connected again.
    Reconnected(WalletAccount),
    /// The account has been disconnected.
    Disconnected,
    /// The wallet has put another account in place of the connected one.
    AccountChanged(WalletAccount),
    /// A notification that changes nothing.
    Skip,
}

/// A [`WalletEvent`] with the view of its account.
pub enum WalletEventView {
    Connected(WalletAccountView),
    Reconnected(WalletAccountView),
    Disconnected,
    AccountChanged(WalletAccountView),
    Skip,
}

impl View for WalletEvent {
    type V = WalletEventView;

    open spec fn view(&self) -> WalletEventView {
        match self {
            WalletEvent::Connected(account) => WalletEventView::Connected(account@),
            WalletEvent::Reconnected(account) => WalletEventView::Reconnected(account@),
            WalletEvent::Disconnected => WalletEventView::Disconnected,
            WalletEvent::AccountChanged(account) => WalletEventView::AccountChanged(account@),
            WalletEvent::Skip => WalletEventView::Skip,
        }
    }
}

impl Default for WalletEvent {
    /// The event `Skip`.
    fn default() -> (event: WalletEvent)
        ensures
            event@ == WalletEventView::Skip,
    {
        WalletEvent::Skip
    }
}

} // verus!
