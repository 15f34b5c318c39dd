//! The adapter: the registry of wallets and the state of the connection,
//! with the operations that an application performs on them.
//!
//! The adapter does not talk to a wallet itself. Where a wallet has to be
//! asked, an operation hands back the request that is to be put to it,
//! or takes in the answer that came back. The embedding program makes the
//! call in between, keeps the adapter behind a lock that lets one writer
//! or many readers in, and tells the application of the events that the
//! operations hand back.

use crate::adapter::connection::dedup;
use crate::adapter::connection::emitted;
use crate::adapter::connection::opt_account_view;
use crate::adapter::connection::opt_event_view;
use crate::adapter::connection::opt_wallet_view;
use crate::adapter::connection::ConnectionInfo;
use crate::adapter::connection::ConnectionView;
use crate::adapter::errors::WalletError;
use crate::adapter::errors::WalletErrorView;
use crate::adapter::errors::WalletResult;
use crate::adapter::events::WalletEvent;
use crate::adapter::events::WalletEventView;
use crate::adapter::host::ReflectedAccount;
use crate::adapter::host::ReflectedWallet;
use crate::adapter::sign_in::SignInRequest;
use crate::adapter::sign_message::SignMessageRequest;
use crate::adapter::sign_tx::buffers;
use crate::adapter::sign_tx::chain_of;
use crate::adapter::sign_tx::SendOptions;
use crate::adapter::sign_tx::SignAllTransactionsRequest;
use crate::adapter::sign_tx::SignAndSendTransactionRequest;
use crate::adapter::sign_tx::SignTransactionRequest;
use crate::adapter::storage::key_of;
use crate::adapter::storage::lookup;
use crate::adapter::storage::wallets_of;
use crate::adapter::storage::with_entry;
use crate::adapter::storage::EntryView;
use crate::adapter::storage::WalletStorage;
use crate::adapter::wallet::parsed_wallet;
use crate::adapter::wallet::Wallet;
use crate::adapter::wallet::WalletView;
use crate::adapter::wallet_account::parsed_account;
use crate::adapter::wallet_account::WalletAccount;
use crate::base::clusters::Cluster;
use crate::common::chains::ChainSupport;
use crate::common::clusters::SolanaNetworkCluster;
use crate::common::feature_support::FeatureSupport;
use crate::common::signin::SigninInput;
use crate::text::opt_view;
use vstd::prelude::*;

verus! {

/// The number of events that the channel to the application holds unless
/// another number is asked for.
pub const DEFAULT_CHANNEL_CAPACITY: usize = 5;

/// The registry, the connection and the capacity of the channel of events.
pub struct AdapterView {
    pub storage: Seq<EntryView>,
    pub connection: ConnectionView,
    pub capacity: usize,
}

/// The clusters for which a flag is set, in the order main network,
/// development network, local validator, test network.
pub open spec fn supported_clusters(flags: ChainSupport) -> Seq<SolanaNetworkCluster> {
    (if flags.mainnet {
        seq![SolanaNetworkCluster::MainNet]
    } else {
        Seq::empty()
    }) + (if flags.devnet {
        seq![SolanaNetworkCluster::DevNet]
    } else {
        Seq::empty()
    }) + (if flags.localnet {
        seq![SolanaNetworkCluster::LocalNet]
    } else {
        Seq::empty()
    }) + (if flags.testnet {
        seq![SolanaNetworkCluster::TestNet]
    } else {
        Seq::empty()
    })
}

/// The connection after `wallet` has answered a request to connect with
/// `response`, and the account that is connected then; the error, and the
/// connection as it was, where the answer holds no account that can be read.
pub open spec fn connected(v: ConnectionView, wallet: WalletView, response: Seq<ReflectedAccount>)
    -> Result<ConnectionView, WalletErrorView> {
    if response.len() == 0 {
        Err(WalletErrorView::ConnectHasNoAccounts)
    } else {
        match parsed_account(response[0]) {
            Ok(account) => Ok(ConnectionView { wallet: Some(wallet), account: Some(account), ..v }),
            Err(e) => Err(e),
        }
    }
}

/// The adapter of an application.
#[derive(Debug, Clone, PartialEq, Eq)]
pub struct WalletAdapter {
    storage: WalletStorage,
    connection_info: ConnectionInfo,
    capacity: usize,
}

impl View for WalletAdapter {
    type V = AdapterView;

    closed spec fn view(&self) -> AdapterView {
        AdapterView {
            storage: self.storage@,
            connection: self.connection_info@,
            capacity: self.capacity,
        }
    }
}

impl WalletAdapter {
    /// An adapter without wallets and without a connection, for a channel
    /// of five events.
    pub fn init() -> (adapter: WalletAdapter)
        ensures
            adapter@.storage.len() == 0,
            adapter@.connection == crate::adapter::connection::disconnected(),
            adapter@.capacity == DEFAULT_CHANNEL_CAPACITY,
    {
        WalletAdapter::init_with_channel_capacity(DEFAULT_CHANNEL_CAPACITY)
    }

    /// An adapter without wallets and without a connection, for a channel
    /// of `capacity` events.
    pub fn init_with_channel_capacity(capacity: usize) -> (adapter: WalletAdapter)
        ensures
            adapter@.storage.len() == 0,
            adapter@.connection == crate::adapter::connection::disconnected(),
            adapter@.capacity == capacity,
    {
        WalletAdapter {
            storage: WalletStorage::new(),
            connection_info: ConnectionInfo::new(),
            capacity,
        }
    }

    /// The number of events that the channel to the application holds.
    pub fn channel_capacity(&self) -> (capacity: usize)
        ensures
            capacity == self@.capacity,
    {
        self.capacity
    }

    /// Takes in a wallet that has registered with the application. A
    /// wallet that cannot be read is not registered.
    pub fn register_wallet(&mut self, reflected: ReflectedWallet) -> (r: WalletResult<()>)
        ensures
            match parsed_wallet(reflected) {
                Ok(wallet) => r is Ok && final(self)@ == (AdapterView {
                    storage: with_entry(old(self)@.storage, key_of(wallet.data.name), wallet),
                    ..old(self)@
                }),
                Err(e) => r matches Err(x) && x@ == e && final(self)@ == old(self)@,
            },
    {
        let wallet = Wallet::from_jsvalue(reflected)?;
        self.storage.insert(wallet);
        Ok(())
    }

    /// Takes in the answer `response` of `wallet` to a request to
    /// connect: the wallet becomes the connected wallet, the first
    /// account of the answer the connected account. An answer without an
    /// account that can be read leaves the adapter as it was.
    pub fn connect(&mut self, wallet: Wallet, response: &[ReflectedAccount]) -> (r: WalletResult<
        (WalletAccount, WalletEvent),
    >)
        ensures
            match connected(old(self)@.connection, wallet@, response@) {
                Ok(connection) => r matches Ok(done) && Some(done.0@) == connection.account
                    && done.1@ == WalletEventView::Connected(done.0@) && final(self)@ == (
                AdapterView { connection, ..old(self)@ }),
                Err(e) => r matches Err(x) && x@ == e && final(self)@ == old(self)@,
            },
    {
        let account = wallet.connect(response)?;
        self.connection_info.set_wallet(wallet).set_account(account.duplicate());
        let event = WalletEvent::Connected(account.duplicate());
        Ok((account, event))
    }

    /// Takes in the answer of the wallet that is registered under
    /// `wallet_name` to a request to connect.
    pub fn connect_by_name(&mut self, wallet_name: &str, response: &[ReflectedAccount]) -> (r:
        WalletResult<(WalletAccount, WalletEvent)>)
        ensures
            match lookup(old(self)@.storage, key_of(wallet_name@)) {
                None => r matches Err(e) && e@ == WalletErrorView::WalletNotFound && final(self)@
                    == old(self)@,
                Some(wallet) => match connected(old(self)@.connection, wallet, response@) {
                    Ok(connection) => r matches Ok(done) && Some(done.0@) == connection.account
                        && done.1@ == WalletEventView::Connected(done.0@) && final(self)@ == (
                    AdapterView { connection, ..old(self)@ }),
                    Err(e) => r matches Err(x) && x@ == e && final(self)@ == old(self)@,
                },
            },
    {
        let wallet = self.get_wallet(wallet_name)?;
        self.connect(wallet, response)
    }

    /// Forgets the connection and hands back the event `Disconnected`.
    pub fn disconnect(&mut self) -> (event: WalletEvent)
        ensures
            final(self)@ == (AdapterView {
                connection: crate::adapter::connection::disconnected(),
                ..old(self)@
            }),
            event@ == WalletEventView::Disconnected,
    {
        self.connection_info.set_disconnected()
    }

    /// Takes in a notification of the wallet called `wallet_name` that
    /// carries `account`. Without a connected wallet the notification is
    /// dropped; otherwise the event that is to be told is handed back.
    pub fn emit_wallet_event(&mut self, wallet_name: &str, account: Option<WalletAccount>) -> (event:
        Option<WalletEvent>)
        ensures
            final(self)@ == (AdapterView {
                connection: emitted(
                    old(self)@.connection,
                    wallet_name@,
                    opt_account_view(account),
                ).0,
                ..old(self)@
            }),
            opt_event_view(event) == emitted(
                old(self)@.connection,
                wallet_name@,
                opt_account_view(account),
            ).1,
    {
        self.connection_info.emit_wallet_event(wallet_name, account)
    }

    /// The request that asks the connected wallet to sign in.
    pub fn sign_in(&self, signin_input: &SigninInput, public_key: [u8; 32]) -> (r: WalletResult<
        SignInRequest,
    >)
        ensures
            match self@.connection.wallet {
                None => r matches Err(e) && e@ == WalletErrorView::WalletNotFound,
                Some(wallet) => match wallet.features.sign_in {
                    Some(_) => r matches Ok(request) && request.input@ == signin_input@
                        && request.public_key == public_key,
                    None => r matches Err(e) && e@ == WalletErrorView::MissingSignInFunction,
                },
            },
    {
        self.connection_info.connected_wallet()?.sign_in(signin_input, public_key)
    }

    /// The request that asks the connected wallet to sign the
    /// transaction with the connected account and to send it to `cluster`.
    pub fn sign_and_send_transaction(
        &self,
        transaction_bytes: &[u8],
        cluster: SolanaNetworkCluster,
        options: SendOptions,
    ) -> (r: WalletResult<SignAndSendTransactionRequest>)
        ensures
            if self@.connection.wallet is None {
                r matches Err(e) && e@ == WalletErrorView::WalletNotFound
            } else if self@.connection.account is None {
                r matches Err(e) && e@ == WalletErrorView::AccountNotFound
            } else {
                r matches Ok(request) && request.account == self@.connection.account->0.handle
                    && request.transaction@ == transaction_bytes@ && request.chain@
                    == cluster.chain_text() && request.options == options
            },
    {
        let wallet = self.connection_info.connected_wallet()?;
        let account = self.connection_info.connected_account()?;
        Ok(wallet.sign_and_send_transaction(transaction_bytes, cluster, options, account))
    }

    /// The request that asks the connected wallet to sign the
    /// transaction with the connected account.
    pub fn sign_transaction(&self, transaction_bytes: &[u8], cluster: Option<SolanaNetworkCluster>)
        -> (r: WalletResult<SignTransactionRequest>)
        ensures
            if self@.connection.wallet is None {
                r matches Err(e) && e@ == WalletErrorView::WalletNotFound
            } else if self@.connection.account is None {
                r matches Err(e) && e@ == WalletErrorView::AccountNotFound
            } else {
                r matches Ok(request) && request.account == self@.connection.account->0.handle
                    && request.transaction@ == transaction_bytes@ && opt_view(request.chain)
                    == chain_of(cluster)
            },
    {
        let wallet = self.connection_info.connected_wallet()?;
        let account = self.connection_info.connected_account()?;
        Ok(wallet.sign_transaction(transaction_bytes, cluster, account))
    }

    /// The request that asks the connected wallet to sign all the
    /// transactions with the connected account.
    pub fn sign_all_transactions(
        &self,
        transactions: &[Vec<u8>],
        cluster: Option<SolanaNetworkCluster>,
    ) -> (r: WalletResult<SignAllTransactionsRequest>)
        ensures
            if self@.connection.wallet is None {
                r matches Err(e) && e@ == WalletErrorView::WalletNotFound
            } else if self@.connection.account is None {
                r matches Err(e) && e@ == WalletErrorView::AccountNotFound
            } else if self@.connection.wallet->0.features.sign_all_tx is None {
                r matches Err(e) && e@ == WalletErrorView::MissingSignAllTransactionsFunction
            } else {
                r matches Ok(request) && request.account == self@.connection.account->0.handle
                    && buffers(request.transactions@) == buffers(transactions@) && opt_view(
                    request.chain,
                ) == chain_of(cluster)
            },
    {
        let wallet = self.connection_info.connected_wallet()?;
        let account = self.connection_info.connected_account()?;
        wallet.sign_all_transactions(transactions, cluster, account)
    }

    /// The request that asks the connected wallet to sign `message` with
    /// the connected account.
    pub fn sign_message(&self, message: &[u8]) -> (r: WalletResult<SignMessageRequest>)
        ensures
            if self@.connection.wallet is None {
                r matches Err(e) && e@ == WalletErrorView::WalletNotFound
            } else if self@.connection.account is None {
                r matches Err(e) && e@ == WalletErrorView::AccountNotFound
            } else {
                r matches Ok(request) && request.account == self@.connection.account->0.handle
                    && request.message@ == message@
            },
    {
        let wallet = self.connection_info.connected_wallet()?;
        let account = self.connection_info.connected_account()?;
        Ok(wallet.sign_message(message, account))
    }

    /// Whether an account is connected.
    pub fn is_connected(&self) -> (r: bool)
        ensures
            r == self@.connection.account is Some,
    {
        self.connection_info.connected_account_raw().is_some()
    }

    /// The state of the connection.
    pub fn connection_info(&self) -> (r: &ConnectionInfo)
        ensures
            r@ == self@.connection,
    {
        &self.connection_info
    }

    /// The registry of wallets.
    pub fn storage(&self) -> (r: &WalletStorage)
        ensures
            r@ == self@.storage,
    {
        &self.storage
    }

    /// The flags of the connected wallet for the clusters, or the error
    /// that no wallet is connected.
    fn chain_support(&self) -> (r: WalletResult<ChainSupport>)
        ensures
            match self@.connection.wallet {
                Some(wallet) => r == Ok::<ChainSupport, WalletError>(wallet.data.supported_chains),
                None => r matches Err(e) && e@ == WalletErrorView::WalletNotFound,
            },
    {
        let wallet = self.connection_info.connected_wallet()?;
        Ok(
            ChainSupport {
                mainnet: wallet.mainnet(),
                devnet: wallet.devnet(),
                testnet: wallet.testnet(),
                localnet: wallet.localnet(),
            },
        )
    }

    /// The flags of the connected wallet for the features, or the error
    /// that no wallet is connected.
    fn feature_support(&self) -> (r: WalletResult<FeatureSupport>)
        ensures
            match self@.connection.wallet {
                Some(wallet) => r == Ok::<FeatureSupport, WalletError>(
                    wallet.data.supported_features,
                ),
                None => r matches Err(e) && e@ == WalletErrorView::WalletNotFound,
            },
    {
        let wallet = self.connection_info.connected_wallet()?;
        Ok(
            FeatureSupport {
                connect: wallet.standard_connect(),
                disconnect: wallet.standard_disconnect(),
                events: wallet.standard_events(),
                sign_in: wallet.solana_signin(),
                sign_message: wallet.solana_sign_message(),
                sign_and_send_tx: wallet.solana_sign_and_send_transaction(),
                sign_tx: wallet.solana_sign_transaction(),
                sign_all_tx: wallet.solana_sign_all_transactions(),
            },
        )
    }

    /// The clusters that the connected wallet supports, in the order main
    /// network, development network, local validator, test network.
    pub fn clusters(&self) -> (r: WalletResult<Vec<SolanaNetworkCluster>>)
        ensures
            match self@.connection.wallet {
                Some(wallet) => r matches Ok(clusters) && clusters@ == supported_clusters(
                    wallet.data.supported_chains,
                ),
                None => r matches Err(e) && e@ == WalletErrorView::WalletNotFound,
            },
    {
        let flags = self.chain_support()?;
        let mut clusters: Vec<SolanaNetworkCluster> = Vec::new();
        if flags.mainnet {
            clusters.push(SolanaNetworkCluster::MainNet);
        }
        if flags.devnet {
            clusters.push(SolanaNetworkCluster::DevNet);
        }
        if flags.localnet {
            clusters.push(SolanaNetworkCluster::LocalNet);
        }
        if flags.testnet {
            clusters.push(SolanaNetworkCluster::TestNet);
        }
        proof {
            assert(clusters@ =~= supported_clusters(flags));
        }
        Ok(clusters)
    }

    /// The wallets that have registered.
    pub fn wallets(&self) -> (wallets: Vec<Wallet>)
        ensures
            crate::adapter::storage::wallet_views(wallets@) == wallets_of(self@.storage),
    {
        self.storage.get_wallets()
    }

    /// The wallet that is registered under `wallet_name`, or the error
    /// that there is none.
    pub fn get_wallet(&self, wallet_name: &str) -> (r: WalletResult<Wallet>)
        ensures
            match lookup(self@.storage, key_of(wallet_name@)) {
                Some(v) => r matches Ok(wallet) && wallet@ == v,
                None => r matches Err(e) && e@ == WalletErrorView::WalletNotFound,
            },
    {
        match self.storage.get_wallet(wallet_name) {
            Some(wallet) => Ok(wallet),
            None => Err(WalletError::WalletNotFound),
        }
    }

    /// Whether the connected wallet supports the main network.
    pub fn mainnet(&self) -> (r: WalletResult<bool>)
        ensures
            match self@.connection.wallet {
                Some(wallet) => r == Ok::<bool, WalletError>(wallet.data.supported_chains.mainnet),
                None => r matches Err(e) && e@ == WalletErrorView::WalletNotFound,
            },
    {
        Ok(self.chain_support()?.mainnet)
    }

    /// Whether the connected wallet supports the development network.
    pub fn devnet(&self) -> (r: WalletResult<bool>)
        ensures
            match self@.connection.wallet {
                Some(wallet) => r == Ok::<bool, WalletError>(wallet.data.supported_chains.devnet),
                None => r matches Err(e) && e@ == WalletErrorView::WalletNotFound,
            },
    {
        Ok(self.chain_support()?.devnet)
    }

    /// Whether the connected wallet supports the test network.
    pub fn testnet(&self) -> (r: WalletResult<bool>)
        ensures
            match self@.connection.wallet {
                Some(wallet) => r == Ok::<bool, WalletError>(wallet.data.supported_chains.testnet),
                None => r matches Err(e) && e@ == WalletErrorView::WalletNotFound,
            },
    {
        Ok(self.chain_support()?.testnet)
    }

    /// Whether the connected wallet supports a local validator.
    pub fn localnet(&self) -> (r: WalletResult<bool>)
        ensures
            match self@.connection.wallet {
                Some(wallet) => r == Ok::<bool, WalletError>(wallet.data.supported_chains.localnet),
                None => r matches Err(e) && e@ == WalletErrorView::WalletNotFound,
            },
    {
        Ok(self.chain_support()?.localnet)
    }

    /// Whether the connected wallet offers `standard:connect`.
    pub fn standard_connect(&self) -> (r: WalletResult<bool>)
        ensures
            match self@.connection.wallet {
                Some(wallet) => r == Ok::<bool, WalletError>(
                    wallet.data.supported_features.connect,
                ),
                None => r matches Err(e) && e@ == WalletErrorView::WalletNotFound,
            },
    {
        Ok(self.feature_support()?.connect)
    }

    /// Whether the connected wallet offers `standard:disconnect`.
    pub fn standard_disconnect(&self) -> (r: WalletResult<bool>)
        ensures
            match self@.connection.wallet {
                Some(wallet) => r == Ok::<bool, WalletError>(
                    wallet.data.supported_features.disconnect,
                ),
                None => r matches Err(e) && e@ == WalletErrorView::WalletNotFound,
            },
    {
        Ok(self.feature_support()?.disconnect)
    }

    /// Whether the connected wallet offers `standard:events`.
    pub fn standard_events(&self) -> (r: WalletResult<bool>)
        ensures
            match self@.connection.wallet {
                Some(wallet) => r == Ok::<bool, WalletError>(wallet.data.supported_features.events),
                None => r matches Err(e) && e@ == WalletErrorView::WalletNotFound,
            },
    {
        Ok(self.feature_support()?.events)
    }

    /// Whether the connected wallet offers `solana:signIn`.
    pub fn solana_signin(&self) -> (r: WalletResult<bool>)
        ensures
            match self@.connection.wallet {
                Some(wallet) => r == Ok::<bool, WalletError>(
                    wallet.data.supported_features.sign_in,
                ),
                None => r matches Err(e) && e@ == WalletErrorView::WalletNotFound,
            },
    {
        Ok(self.feature_support()?.sign_in)
    }

    /// Whether the connected wallet offers `solana:signMessage`.
    pub fn solana_sign_message(&self) -> (r: WalletResult<bool>)
        ensures
            match self@.connection.wallet {
                Some(wallet) => r == Ok::<bool, WalletError>(
                    wallet.data.supported_features.sign_message,
                ),
                None => r matches Err(e) && e@ == WalletErrorView::WalletNotFound,
            },
    {
        Ok(self.feature_support()?.sign_message)
    }

    /// Whether the connected wallet offers `solana:signAndSendTransaction`.
    pub fn solana_sign_and_send_transaction(&self) -> (r: WalletResult<bool>)
        ensures
            match self@.connection.wallet {
                Some(wallet) => r == Ok::<bool, WalletError>(
                    wallet.data.supported_features.sign_and_send_tx,
                ),
                None => r matches Err(e) && e@ == WalletErrorView::WalletNotFound,
            },
    {
        Ok(self.feature_support()?.sign_and_send_tx)
    }

    /// Whether the connected wallet offers `solana:signTransaction`.
    pub fn solana_sign_transaction(&self) -> (r: WalletResult<bool>)
        ensures
            match self@.connection.wallet {
                Some(wallet) => r == Ok::<bool, WalletError>(
                    wallet.data.supported_features.sign_tx,
                ),
                None => r matches Err(e) && e@ == WalletErrorView::WalletNotFound,
            },
    {
        Ok(self.feature_support()?.sign_tx)
    }

    /// Whether the connected wallet offers `solana:signAllTransactions`.
    pub fn solana_sign_all_transactions(&self) -> (r: WalletResult<bool>)
        ensures
            match self@.connection.wallet {
                Some(wallet) => r == Ok::<bool, WalletError>(
                    wallet.data.supported_features.sign_all_tx,
                ),
                None => r matches Err(e) && e@ == WalletErrorView::WalletNotFound,
            },
    {
        Ok(self.feature_support()?.sign_all_tx)
    }
}

} // verus!
