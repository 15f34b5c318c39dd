//! The state of the connection between the application and a wallet, and
//! how the notifications of a wallet move it.
//!
//! The state holds the connected wallet, the connected account and the
//! accounts that were connected before. A notification names the wallet
//! that raised it and carries the account that the wallet now offers, or
//! none. What becomes of the state, and which event the application is
//! told, follows from these alone.

use crate::adapter::errors::WalletError;
use crate::adapter::errors::WalletErrorView;
use crate::adapter::errors::WalletResult;
use crate::adapter::events::WalletEvent;
use crate::adapter::events::WalletEventView;
use crate::adapter::host::ReflectedAccount;
use crate::adapter::wallet::wallet_account_views;
use crate::adapter::wallet::Wallet;
use crate::adapter::wallet::WalletView;
use crate::adapter::wallet_account::parsed_account;
use crate::adapter::wallet_account::same_account_view;
use crate::adapter::wallet_account::WalletAccount;
use crate::adapter::wallet_account::WalletAccountView;
use crate::text::bytes_equal;
use crate::text::text_equal;
use vstd::prelude::*;

verus! {

/// The state of the connection.
pub struct ConnectionView {
    pub wallet: Option<WalletView>,
    pub account: Option<WalletAccountView>,
    pub previous_accounts: Seq<WalletAccountView>,
}

/// The state in which nothing is connected and nothing was.
pub open spec fn disconnected() -> ConnectionView {
    ConnectionView { wallet: None, account: None, previous_accounts: Seq::empty() }
}

/// `history` with every run of accounts that are the same to the
/// application reduced to its first account.
pub open spec fn dedup(history: Seq<WalletAccountView>) -> Seq<WalletAccountView>
    decreases history.len(),
{
    if history.len() == 0 {
        Seq::empty()
    } else {
        let kept = dedup(history.drop_last());
        if kept.len() > 0 && same_account_view(kept.last().account, history.last().account) {
            kept
        } else {
            kept.push(history.last())
        }
    }
}

/// The state after the connected account, if there is one, has been moved
/// to the end of the history.
pub open spec fn push_previous(v: ConnectionView) -> ConnectionView {
    ConnectionView {
        wallet: v.wallet,
        account: None,
        previous_accounts: dedup(
            match v.account {
                Some(account) => v.previous_accounts.push(account),
                None => v.previous_accounts,
            },
        ),
    }
}

/// Whether an account with the public key `key` occurs in `history`.
pub open spec fn has_key(history: Seq<WalletAccountView>, key: Seq<u8>) -> bool {
    exists|i: int| 0 <= i < history.len() && history[i].account.public_key == key
}

/// Whether the connected wallet is called `wallet_name`.
pub open spec fn is_named(v: ConnectionView, wallet_name: Seq<char>) -> bool {
    v.wallet is Some && v.wallet->0.data.name == wallet_name
}

/// What a notification of the wallet called `wallet_name` that carries
/// `incoming` makes of the state `v`, and the event that tells of it.
pub open spec fn transition(
    v: ConnectionView,
    wallet_name: Seq<char>,
    incoming: Option<WalletAccountView>,
) -> (ConnectionView, WalletEventView) {
    match incoming {
        Some(account) => {
            let known = has_key(v.previous_accounts, account.account.public_key);
            if v.account is None && v.wallet is None && v.previous_accounts.len() == 0 {
                (ConnectionView { account: Some(account), ..v }, WalletEventView::Connected(account))
            } else if v.account is None && v.wallet is Some && known {
                (
                    ConnectionView { account: Some(account), ..push_previous(v) },
                    WalletEventView::Connected(account),
                )
            } else if is_named(v, wallet_name) && v.account is None && known {
                (
                    ConnectionView { account: Some(account), ..push_previous(v) },
                    WalletEventView::Reconnected(account),
                )
            } else if is_named(v, wallet_name) && v.account is Some {
                (
                    ConnectionView { account: Some(account), ..push_previous(v) },
                    WalletEventView::AccountChanged(account),
                )
            } else {
                (v, WalletEventView::Skip)
            }
        },
        None => {
            if is_named(v, wallet_name) {
                (push_previous(v), WalletEventView::Disconnected)
            } else {
                (v, WalletEventView::Skip)
            }
        },
    }
}

/// What a notification makes of the state as the adapter handles it:
/// without a connected wallet the notification is dropped, and no event
/// is told.
pub open spec fn emitted(
    v: ConnectionView,
    wallet_name: Seq<char>,
    incoming: Option<WalletAccountView>,
) -> (ConnectionView, Option<WalletEventView>) {
    if v.wallet is None {
        (v, None)
    } else {
        (transition(v, wallet_name, incoming).0, Some(transition(v, wallet_name, incoming).1))
    }
}

/// From the state in which nothing is connected and nothing was, a
/// notification with an account connects that account.
pub proof fn law_first_account_connects(wallet_name: Seq<char>, account: WalletAccountView)
    ensures
        transition(disconnected(), wallet_name, Some(account)) == (
            ConnectionView { account: Some(account), ..disconnected() },
            WalletEventView::Connected(account),
        ),
{
}

/// While an account is connected, a notification of the connected wallet
/// with an account puts that account in its place and moves the old one
/// to the end of the history.
pub proof fn law_account_change(
    v: ConnectionView,
    wallet_name: Seq<char>,
    account: WalletAccountView,
)
    requires
        is_named(v, wallet_name),
        v.account is Some,
    ensures
        transition(v, wallet_name, Some(account)) == (
            ConnectionView {
                wallet: v.wallet,
                account: Some(account),
                previous_accounts: dedup(v.previous_accounts.push(v.account->0)),
            },
            WalletEventView::AccountChanged(account),
        ),
{
}

/// A notification of the connected wallet without an account disconnects:
/// no account is connected afterwards, and the one that was joins the
/// history, which is kept.
pub proof fn law_disconnect(v: ConnectionView, wallet_name: Seq<char>)
    requires
        is_named(v, wallet_name),
    ensures
        transition(v, wallet_name, None) == (push_previous(v), WalletEventView::Disconnected),
        transition(v, wallet_name, None).0.account is None,
        transition(v, wallet_name, None).0.wallet == v.wallet,
{
}

/// A notification of a wallet other than the connected one changes
/// nothing, unless no account is connected and the account it carries
/// was connected before.
pub proof fn law_other_wallet_is_skipped(
    v: ConnectionView,
    wallet_name: Seq<char>,
    incoming: Option<WalletAccountView>,
)
    requires
        v.wallet is Some,
        !is_named(v, wallet_name),
        incoming matches Some(account) ==> v.account is Some || !has_key(
            v.previous_accounts,
            account.account.public_key,
        ),
    ensures
        transition(v, wallet_name, incoming) == (v, WalletEventView::Skip),
{
}

/// The wallet, the account and the earlier accounts of a connection.
#[derive(Debug, Clone, PartialEq, Eq)]
pub struct ConnectionInfo {
    wallet: Option<Wallet>,
    account: Option<WalletAccount>,
    previous_accounts: Vec<WalletAccount>,
}

/// The view of an optional wallet.
pub open spec fn opt_wallet_view(wallet: Option<Wallet>) -> Option<WalletView> {
    match wallet {
        Some(w) => Some(w@),
        None => None,
    }
}

/// The view of an optional account.
pub open spec fn opt_account_view(account: Option<WalletAccount>) -> Option<WalletAccountView> {
    match account {
        Some(a) => Some(a@),
        None => None,
    }
}

impl View for ConnectionInfo {
    type V = ConnectionView;

    closed spec fn view(&self) -> ConnectionView {
        ConnectionView {
            wallet: opt_wallet_view(self.wallet),
            account: opt_account_view(self.account),
            previous_accounts: wallet_account_views(self.previous_accounts@),
        }
    }
}

impl Default for ConnectionInfo {
    /// The state in which nothing is connected and nothing was.
    fn default() -> (info: ConnectionInfo)
        ensures
            info@ == disconnected(),
    {
        ConnectionInfo::new()
    }
}

/// Computes `dedup`.
pub fn dedup_accounts(history: &Vec<WalletAccount>) -> (kept: Vec<WalletAccount>)
    ensures
        wallet_account_views(kept@) == dedup(wallet_account_views(history@)),
{
    let ghost views = wallet_account_views(history@);
    let n: usize = history.len();
    let mut kept: Vec<WalletAccount> = Vec::new();
    let mut i: usize = 0;
    proof {
        assert(views.subrange(0, 0) =~= Seq::empty());
        assert(wallet_account_views(kept@) =~= Seq::empty());
    }
    while i < n
        invariant
            n == history@.len(),
            i <= n,
            views == wallet_account_views(history@),
            wallet_account_views(kept@) == dedup(views.subrange(0, i as int)),
        decreases n - i,
    {
        proof {
            let next = views.subrange(0, i + 1);
            assert(next.drop_last() =~= views.subrange(0, i as int));
            assert(next.last() == history@[i as int]@);
        }
        let m: usize = kept.len();
        let repeated = m > 0 && kept[m - 1].same_account(&history[i]);
        proof {
            if m > 0 {
                assert(wallet_account_views(kept@).last() == kept@[m - 1]@);
            }
        }
        if !repeated {
            let ghost before = kept@;
            let account = history[i].duplicate();
            kept.push(account);
            proof {
                assert(wallet_account_views(kept@) =~= wallet_account_views(before).push(
                    history@[i as int]@,
                ));
            }
        }
        i += 1;
    }
    proof {
        assert(views.subrange(0, n as int) =~= views);
    }
    kept
}

impl ConnectionInfo {
    /// The state in which nothing is connected and nothing was.
    pub fn new() -> (info: ConnectionInfo)
        ensures
            info@ == disconnected(),
    {
        let info = ConnectionInfo { wallet: None, account: None, previous_accounts: Vec::new() };
        proof {
            assert(wallet_account_views(info.previous_accounts@) =~= Seq::empty());
        }
        info
    }

    /// Puts `wallet` in the place of the connected wallet.
    pub fn set_wallet(&mut self, wallet: Wallet) -> (ret: &mut Self)
        ensures
            ret@ == (ConnectionView { wallet: Some(wallet@), ..old(self)@ }),
            *final(self) == *final(ret),
    {
        self.wallet = Some(wallet);
        self
    }

    /// Puts `account` in the place of the connected account.
    pub fn set_account(&mut self, account: WalletAccount) -> (ret: &mut Self)
        ensures
            ret@ == (ConnectionView { account: Some(account@), ..old(self)@ }),
            *final(self) == *final(ret),
    {
        self.account = Some(account);
        self
    }

    /// Takes in the answer of the connected wallet to a request to
    /// connect: the first account of the answer becomes the connected
    /// account, and the event `Connected` tells of it. Without a connected
    /// wallet, and with an answer that holds no account that can be read,
    /// the state stays as it is.
    pub fn connect(&mut self, response: &[ReflectedAccount]) -> (r: WalletResult<
        (WalletAccount, WalletEvent),
    >)
        ensures
            if old(self)@.wallet is None {
                r matches Err(e) && e@ == WalletErrorView::WalletNotFound && *final(self) == *old(
                    self,
                )
            } else if response@.len() == 0 {
                r matches Err(e) && e@ == WalletErrorView::ConnectHasNoAccounts && *final(self)
                    == *old(self)
            } else {
                match parsed_account(response@[0]) {
                    Ok(account) => r matches Ok(done) && done.0@ == account && done.1@
                        == WalletEventView::Connected(account) && final(self)@ == (ConnectionView {
                        account: Some(account),
                        ..old(self)@
                    }),
                    Err(e) => r matches Err(x) && x@ == e && *final(self) == *old(self),
                }
            },
    {
        let connected_account = match &self.wallet {
            Some(wallet) => wallet.connect(response)?,
            None => {
                return Err(WalletError::WalletNotFound);
            },
        };
        self.account = Some(connected_account.duplicate());
        let event = WalletEvent::Connected(connected_account.duplicate());
        Ok((connected_account, event))
    }

    /// Forgets the wallet, the account and the history, and hands back
    /// the event `Disconnected`.
    pub fn set_disconnected(&mut self) -> (event: WalletEvent)
        ensures
            final(self)@ == disconnected(),
            event@ == WalletEventView::Disconnected,
    {
        self.wallet = None;
        self.account = None;
        self.previous_accounts = Vec::new();
        proof {
            assert(wallet_account_views(self.previous_accounts@) =~= Seq::empty());
        }
        WalletEvent::Disconnected
    }

    /// The connected wallet, or the error that none is connected.
    pub fn connected_wallet(&self) -> (r: WalletResult<&Wallet>)
        ensures
            match self@.wallet {
                Some(v) => r matches Ok(wallet) && wallet@ == v,
                None => r matches Err(e) && e@ == WalletErrorView::WalletNotFound,
            },
    {
        match &self.wallet {
            Some(wallet) => Ok(wallet),
            None => Err(WalletError::WalletNotFound),
        }
    }

    /// The connected account, or the error that none is connected.
    pub fn connected_account(&self) -> (r: WalletResult<&WalletAccount>)
        ensures
            match self@.account {
                Some(v) => r matches Ok(account) && account@ == v,
                None => r matches Err(e) && e@ == WalletErrorView::AccountNotFound,
            },
    {
        match &self.account {
            Some(account) => Ok(account),
            None => Err(WalletError::AccountNotFound),
        }
    }

    /// The connected wallet, where there is one.
    pub fn connected_wallet_raw(&self) -> (r: Option<&Wallet>)
        ensures
            match self@.wallet {
                Some(v) => r matches Some(wallet) && wallet@ == v,
                None => r is None,
            },
    {
        self.wallet.as_ref()
    }

    /// The connected account, where there is one.
    pub fn connected_account_raw(&self) -> (r: Option<&WalletAccount>)
        ensures
            match self@.account {
                Some(v) => r matches Some(account) && account@ == v,
                None => r is None,
            },
    {
        self.account.as_ref()
    }

    /// The accounts that were connected before, oldest first.
    pub fn previous_accounts(&self) -> (r: &[WalletAccount])
        ensures
            wallet_account_views(r@) == self@.previous_accounts,
    {
        self.previous_accounts.as_slice()
    }

    /// Whether an account with the public key of `account` was connected before.
    fn was_connected(&self, account: &WalletAccount) -> (r: bool)
        ensures
            r == has_key(self@.previous_accounts, account@.account.public_key),
    {
        let ghost history = wallet_account_views(self.previous_accounts@);
        let key = account.public_key();
        let n: usize = self.previous_accounts.len();
        let mut i: usize = 0;
        while i < n
            invariant
                n == self.previous_accounts@.len(),
                i <= n,
                key@ == account@.account.public_key,
                history == wallet_account_views(self.previous_accounts@),
                forall|j: int| 0 <= j < i ==> history[j].account.public_key != key@,
            decreases n - i,
        {
            let other = self.previous_accounts[i].public_key();
            if bytes_equal(other.as_slice(), key.as_slice()) {
                proof {
                    assert(history[i as int].account.public_key == key@);
                }
                return true;
            }
            i += 1;
        }
        false
    }

    /// Whether the connected wallet is called `wallet_name`.
    fn wallet_is_named(&self, wallet_name: &str) -> (r: bool)
        ensures
            r == is_named(self@, wallet_name@),
    {
        match &self.wallet {
            Some(wallet) => text_equal(wallet.name(), wallet_name),
            None => false,
        }
    }

    /// Moves the connected account, if there is one, to the end of the
    /// history and removes the repetitions from the history.
    pub fn push_previous_account(&mut self)
        ensures
            final(self)@ == push_previous(old(self)@),
    {
        let taken = self.account.take();
        if let Some(account) = taken {
            let ghost before = self.previous_accounts@;
            self.previous_accounts.push(account);
            proof {
                assert(wallet_account_views(self.previous_accounts@) =~= wallet_account_views(
                    before,
                ).push(account@));
            }
        }
        self.previous_accounts = dedup_accounts(&self.previous_accounts);
    }

    /// Takes in a notification of the wallet called `wallet_name` that
    /// carries `account_processing`, and hands back the event that tells
    /// of the change.
    pub fn account_changed(&mut self, wallet_name: &str, account_processing: Option<WalletAccount>)
        -> (event: WalletEvent)
        ensures
            (final(self)@, event@) == transition(
                old(self)@,
                wallet_name@,
                opt_account_view(account_processing),
            ),
    {
        match account_processing {
            Some(connected_account) => {
                let known = self.was_connected(&connected_account);
                let named = self.wallet_is_named(wallet_name);
                if self.account.is_none() && self.wallet.is_none()
                    && self.previous_accounts.len() == 0 {
                    self.account = Some(connected_account.duplicate());
                    WalletEvent::Connected(connected_account)
                } else if self.account.is_none() && self.wallet.is_some() && known {
                    self.push_previous_account();
                    self.account = Some(connected_account.duplicate());
                    WalletEvent::Connected(connected_account)
                } else if named && self.account.is_none() && known {
                    self.push_previous_account();
                    self.account = Some(connected_account.duplicate());
                    WalletEvent::Reconnected(connected_account)
                } else if named && self.account.is_some() {
                    self.push_previous_account();
                    self.account = Some(connected_account.duplicate());
                    WalletEvent::AccountChanged(connected_account)
                } else {
                    WalletEvent::Skip
                }
            },
            None => {
                if self.wallet_is_named(wallet_name) {
                    self.push_previous_account();
                    WalletEvent::Disconnected
                } else {
                    WalletEvent::Skip
                }
            },
        }
    }

    /// Takes in a notification as the adapter handles it: without a
    /// connected wallet the notification is dropped and `None` is handed
    /// back; otherwise the event that is to be told to the application.
    pub fn emit_wallet_event(
        &mut self,
        wallet_name: &str,
        account_processing: Option<WalletAccount>,
    ) -> (event: Option<WalletEvent>)
        ensures
            final(self)@ == emitted(
                old(self)@,
                wallet_name@,
                opt_account_view(account_processing),
            ).0,
            crate::adapter::connection::opt_event_view(event) == emitted(
                old(self)@,
                wallet_name@,
                opt_account_view(account_processing),
            ).1,
    {
        if self.wallet.is_none() {
            return None;
        }
        Some(self.account_changed(wallet_name, account_processing))
    }
}

/// The view of an optional event.
pub open spec fn opt_event_view(event: Option<WalletEvent>) -> Option<WalletEventView> {
    match event {
        Some(e) => Some(e@),
        None => None,
    }
}

} // verus!
