//! A wallet of the wallet standard, as read from the host.

use crate::adapter::errors::WalletError;
use crate::adapter::errors::WalletErrorView;
use crate::adapter::errors::WalletResult;
use crate::adapter::features::parsed_features;
use crate::adapter::features::Features;
use crate::adapter::features::FeaturesView;
use crate::adapter::host::ReflectedAccount;
use crate::adapter::host::ReflectedWallet;
use crate::adapter::semver::parse_version;
use crate::adapter::semver::parsed_version;
use crate::adapter::sign_in::SignInRequest;
use crate::adapter::sign_message::SignMessageRequest;
use crate::adapter::sign_tx::buffers;
use crate::adapter::sign_tx::chain_of;
use crate::adapter::sign_tx::SendOptions;
use crate::adapter::sign_tx::SignAllTransactionsRequest;
use crate::adapter::sign_tx::SignAndSendTransactionRequest;
use crate::adapter::sign_tx::SignTransactionRequest;
use crate::adapter::wallet_account::parsed_account;
use crate::adapter::wallet_account::WalletAccount;
use crate::adapter::wallet_account::WalletAccountView;
use crate::base::clusters::Cluster;
use crate::base::version::SemverVersion;
use crate::common::account::AccountView;
use crate::common::account::WalletAccountData;
use crate::common::chains::ChainSupport;
use crate::common::clusters::cluster_named;
use crate::common::clusters::SolanaNetworkCluster;
use crate::common::signin::SigninInput;
use crate::common::wallet::WalletData;
use crate::common::wallet::WalletDataView;
use crate::text::begins_with;
use crate::text::chars_of;
use crate::text::opt_view;
use crate::text::starts_with;
use crate::text::string_views;
use vstd::prelude::*;

verus! {

/// A wallet: its data, its accounts with their handles, its features.
pub struct WalletView {
    pub data: WalletDataView,
    pub accounts: Seq<WalletAccountView>,
    pub features: FeaturesView,
}

/// The clusters that the chains of a wallet name: one for each chain that
/// begins with `solana:`, in order. A chain of that namespace that names
/// no cluster stands for the development network.
pub open spec fn clusters_of(chains: Seq<Seq<char>>) -> Seq<SolanaNetworkCluster>
    decreases chains.len(),
{
    if chains.len() == 0 {
        Seq::empty()
    } else {
        let rest = clusters_of(chains.drop_last());
        if starts_with(chains.last(), "solana:"@) {
            rest.push(cluster_named(chains.last()))
        } else {
            rest
        }
    }
}

/// The flags of the clusters that occur in `clusters`.
pub open spec fn cluster_flags(clusters: Seq<SolanaNetworkCluster>) -> ChainSupport {
    ChainSupport {
        mainnet: clusters.contains(SolanaNetworkCluster::MainNet),
        devnet: clusters.contains(SolanaNetworkCluster::DevNet),
        testnet: clusters.contains(SolanaNetworkCluster::TestNet),
        localnet: clusters.contains(SolanaNetworkCluster::LocalNet),
    }
}

/// The accounts that the first `upto` reflected accounts describe, or the
/// reason why the first of them that cannot be read is refused.
pub open spec fn parsed_accounts(accounts: Seq<ReflectedAccount>, upto: int) -> Result<
    Seq<WalletAccountView>,
    WalletErrorView,
>
    decreases upto,
{
    if upto <= 0 || upto > accounts.len() {
        Ok(Seq::empty())
    } else {
        match parsed_accounts(accounts, upto - 1) {
            Err(e) => Err(e),
            Ok(read) => match parsed_account(accounts[upto - 1]) {
                Err(e) => Err(e),
                Ok(account) => Ok(read.push(account)),
            },
        }
    }
}

/// The plain data of a list of accounts.
pub open spec fn data_of(accounts: Seq<WalletAccountView>) -> Seq<AccountView> {
    accounts.map_values(|a: WalletAccountView| a.account)
}

/// The wallet that the reflected values describe, or the reason why they
/// describe none: a version that cannot be read, the first account that
/// cannot be read, or the first feature that is refused, in this order.
pub open spec fn parsed_wallet(w: ReflectedWallet) -> Result<WalletView, WalletErrorView> {
    match parsed_version(w.version@) {
        Err(e) => Err(e),
        Ok(numbers) => match parsed_accounts(w.accounts@, w.accounts@.len() as int) {
            Err(e) => Err(e),
            Ok(accounts) => match parsed_features(w.features@) {
                Err(e) => Err(e),
                Ok(read) => Ok(
                    WalletView {
                        data: WalletDataView {
                            name: w.name@,
                            version: SemverVersion::from_numbers(numbers.0, numbers.1, numbers.2),
                            icon: opt_view(w.icon),
                            accounts: data_of(accounts),
                            chains: clusters_of(string_views(w.chains@)),
                            supported_features: read.1,
                            supported_chains: cluster_flags(clusters_of(string_views(w.chains@))),
                        },
                        accounts,
                        features: read.0,
                    },
                ),
            },
        },
    }
}

/// The views of a list of accounts.
pub open spec fn wallet_account_views(accounts: Seq<WalletAccount>) -> Seq<WalletAccountView> {
    accounts.map_values(|a: WalletAccount| a@)
}

/// A wallet that follows the wallet standard.
#[derive(Debug, Clone)]
pub struct Wallet {
    pub(crate) data: WalletData,
    pub(crate) accounts: Vec<WalletAccount>,
    pub(crate) features: Features,
}

impl View for Wallet {
    type V = WalletView;

    closed spec fn view(&self) -> WalletView {
        WalletView {
            data: self.data@,
            accounts: wallet_account_views(self.accounts@),
            features: self.features@,
        }
    }
}

impl PartialEq for Wallet {
    /// Whether `other` is the same wallet: the same name, version and chains.
    fn eq(&self, other: &Wallet) -> (r: bool) {
        self.data.same_wallet(&other.data)
    }
}

impl vstd::std_specs::cmp::PartialEqSpecImpl for Wallet {
    open spec fn obeys_eq_spec() -> bool {
        true
    }

    open spec fn eq_spec(&self, other: &Wallet) -> bool {
        crate::common::wallet::same_identity(self@.data, other@.data)
    }
}

impl Eq for Wallet {

}

impl Default for Wallet {
    /// A wallet of which nothing is known and that offers nothing.
    fn default() -> (wallet: Wallet)
        ensures
            crate::common::wallet::is_blank(wallet@.data),
            wallet@.accounts.len() == 0,
            wallet@.features == crate::adapter::features::blank_features(),
    {
        Wallet { data: WalletData::new(), accounts: Vec::new(), features: Features::default() }
    }
}

/// Reads the chains of a wallet into clusters and flags.
pub fn read_clusters(chains: &Vec<String>) -> (r: (Vec<SolanaNetworkCluster>, ChainSupport))
    ensures
        r.0@ == clusters_of(string_views(chains@)),
        r.1 == cluster_flags(r.0@),
{
    let ghost items = string_views(chains@);
    let prefix = chars_of("solana:");
    let mut clusters: Vec<SolanaNetworkCluster> = Vec::new();
    let mut flags = ChainSupport { mainnet: false, devnet: false, testnet: false, localnet: false };
    let n: usize = chains.len();
    let mut i: usize = 0;
    proof {
        assert(items.subrange(0, 0) =~= Seq::empty());
    }
    while i < n
        invariant
            n == chains@.len(),
            i <= n,
            items == string_views(chains@),
            prefix@ == "solana:"@,
            clusters@ == clusters_of(items.subrange(0, i as int)),
            flags == cluster_flags(clusters@),
        decreases n - i,
    {
        let chain = chars_of(chains[i].as_str());
        proof {
            let next = items.subrange(0, i + 1);
            assert(next.drop_last() =~= items.subrange(0, i as int));
            assert(next.last() == chain@);
        }
        if begins_with(chain.as_slice(), prefix.as_slice()) {
            let cluster = SolanaNetworkCluster::from_name(chains[i].as_str());
            let ghost before = clusters@;
            clusters.push(cluster);
            proof {
                assert forall|c: SolanaNetworkCluster| clusters@.contains(c) <==> (
                before.contains(c) || c == cluster) by {
                    if before.contains(c) {
                        let k = choose|k: int| 0 <= k < before.len() && before[k] == c;
                        assert(clusters@[k] == c);
                    }
                    if c == cluster {
                        assert(clusters@[before.len() as int] == c);
                    }
                }
            }
            match cluster {
                SolanaNetworkCluster::MainNet => {
                    flags.mainnet = true;
                },
                SolanaNetworkCluster::DevNet => {
                    flags.devnet = true;
                },
                SolanaNetworkCluster::TestNet => {
                    flags.testnet = true;
                },
                SolanaNetworkCluster::LocalNet => {
                    flags.localnet = true;
                },
            }
        }
        i += 1;
    }
    proof {
        assert(items.subrange(0, n as int) =~= items);
    }
    (clusters, flags)
}

impl Wallet {
    /// Reads the accounts of a wallet. The first account that cannot be
    /// read makes the reading fail.
    pub fn get_accounts(accounts: &Vec<ReflectedAccount>) -> (r: WalletResult<Vec<WalletAccount>>)
        ensures
            match parsed_accounts(accounts@, accounts@.len() as int) {
                Ok(views) => r matches Ok(read) && wallet_account_views(read@) == views,
                Err(e) => r matches Err(x) && x@ == e,
            },
    {
        let n: usize = accounts.len();
        let mut read: Vec<WalletAccount> = Vec::new();
        let mut i: usize = 0;
        proof {
            assert(wallet_account_views(read@) =~= Seq::empty());
        }
        while i < n
            invariant
                n == accounts@.len(),
                i <= n,
                parsed_accounts(accounts@, i as int) == Ok::<
                    Seq<WalletAccountView>,
                    WalletErrorView,
                >(wallet_account_views(read@)),
            decreases n - i,
        {
            let account = match WalletAccount::parse(&accounts[i]) {
                Ok(account) => account,
                Err(e) => {
                    proof {
                        lemma_refused_account(accounts@, i + 1, n as int);
                    }
                    return Err(e);
                },
            };
            let ghost before = read@;
            read.push(account);
            proof {
                assert(wallet_account_views(read@) =~= wallet_account_views(before).push(account@));
            }
            i += 1;
        }
        Ok(read)
    }

    /// The plain data of the accounts.
    fn account_data(accounts: &Vec<WalletAccount>) -> (r: Vec<WalletAccountData>)
        ensures
            crate::common::account::account_views(r@) == data_of(wallet_account_views(accounts@)),
    {
        let n: usize = accounts.len();
        let mut data: Vec<WalletAccountData> = Vec::new();
        let mut i: usize = 0;
        while i < n
            invariant
                n == accounts@.len(),
                i <= n,
                data@.len() == i,
                forall|j: int| 0 <= j < i ==> data@[j]@ == accounts@[j]@.account,
            decreases n - i,
        {
            data.push(accounts[i].data().duplicate());
            i += 1;
        }
        proof {
            assert(crate::common::account::account_views(data@) =~= data_of(
                wallet_account_views(accounts@),
            ));
        }
        data
    }

    /// Reads a wallet from the values that the host reflects.
    pub fn from_jsvalue(value: ReflectedWallet) -> (r: WalletResult<Wallet>)
        ensures
            match parsed_wallet(value) {
                Ok(v) => r matches Ok(wallet) && wallet@ == v,
                Err(e) => r matches Err(x) && x@ == e,
            },
    {
        let (chains, supported_chains) = read_clusters(&value.chains);
        let version = parse_version(value.version.as_str())?;
        let accounts = Wallet::get_accounts(&value.accounts)?;
        let (features, supported_features) = Features::parse(&value.features)?;
        proof {
            version.lemma_from_numbers();
        }
        let data = WalletData::new().set_name(value.name.as_str()).set_version(version).set_icon(
            crate::base::sign_in::as_opt_str(&value.icon),
        ).replace_accounts(Wallet::account_data(&accounts)).replace_chains(
            chains,
        ).set_supported_features(supported_features).set_supported_chains(supported_chains);
        Ok(Wallet { data, accounts, features })
    }

    /// A copy of the wallet.
    pub fn duplicate(&self) -> (copy: Wallet)
        ensures
            copy@ == self@,
    {
        let n: usize = self.accounts.len();
        let mut accounts: Vec<WalletAccount> = Vec::new();
        let mut i: usize = 0;
        while i < n
            invariant
                n == self.accounts@.len(),
                i <= n,
                accounts@.len() == i,
                forall|j: int| 0 <= j < i ==> accounts@[j]@ == self.accounts@[j]@,
            decreases n - i,
        {
            accounts.push(self.accounts[i].duplicate());
            i += 1;
        }
        proof {
            assert(wallet_account_views(accounts@) =~= wallet_account_views(self.accounts@));
        }
        Wallet { data: self.data.duplicate(), accounts, features: self.features.duplicate() }
    }

    /// What the answer of the wallet to a request to connect amounts to:
    /// the first account that it hands out.
    pub fn connect(&self, response: &[ReflectedAccount]) -> (r: WalletResult<WalletAccount>)
        ensures
            if response@.len() == 0 {
                r matches Err(e) && e@ == WalletErrorView::ConnectHasNoAccounts
            } else {
                match parsed_account(response@[0]) {
                    Ok(v) => r matches Ok(account) && account@ == v,
                    Err(e) => r matches Err(x) && x@ == e,
                }
            },
    {
        if response.len() == 0 {
            return Err(WalletError::ConnectHasNoAccounts);
        }
        WalletAccount::parse(&response[0])
    }

    /// Whether the wallet can be asked to disconnect.
    pub fn disconnect(&self) -> (r: WalletResult<()>)
        ensures
            if self@.data.supported_features.disconnect {
                r is Ok
            } else {
                r matches Err(e) && e@ == WalletErrorView::MissingDisconnectFunction
            },
    {
        if self.data.standard_disconnect() {
            Ok(())
        } else {
            Err(WalletError::MissingDisconnectFunction)
        }
    }

    /// The request that asks the wallet to sign in with what
    /// `signin_input` says. A wallet without the feature is not asked.
    pub fn sign_in(&self, signin_input: &SigninInput, public_key: [u8; 32]) -> (r: WalletResult<
        SignInRequest,
    >)
        ensures
            match self@.features.sign_in {
                Some(_) => r matches Ok(request) && request.input@ == signin_input@
                    && request.public_key == public_key,
                None => r matches Err(e) && e@ == WalletErrorView::MissingSignInFunction,
            },
    {
        match self.features.sign_in() {
            Some(feature) => Ok(feature.call_signin(signin_input, public_key)),
            None => Err(WalletError::MissingSignInFunction),
        }
    }

    /// The request that asks the wallet to sign `message` with `account`.
    pub fn sign_message(&self, message: &[u8], account: &WalletAccount) -> (request:
        SignMessageRequest)
        ensures
            request.account == account@.handle,
            request.message@ == message@,
    {
        self.features.sign_message().call_sign_message(account, message)
    }

    /// The request that asks the wallet to sign `transaction_bytes` with
    /// `account`.
    pub fn sign_transaction(
        &self,
        transaction_bytes: &[u8],
        cluster: Option<SolanaNetworkCluster>,
        account: &WalletAccount,
    ) -> (request: SignTransactionRequest)
        ensures
            request.account == account@.handle,
            request.transaction@ == transaction_bytes@,
            opt_view(request.chain) == chain_of(cluster),
    {
        self.features.sign_tx().call_sign_tx(account, transaction_bytes, cluster)
    }

    /// The request that asks the wallet to sign `transaction_bytes` with
    /// `account` and to send it to `cluster`.
    pub fn sign_and_send_transaction(
        &self,
        transaction_bytes: &[u8],
        cluster: SolanaNetworkCluster,
        options: SendOptions,
        account: &WalletAccount,
    ) -> (request: SignAndSendTransactionRequest)
        ensures
            request.account == account@.handle,
            request.transaction@ == transaction_bytes@,
            request.chain@ == cluster.chain_text(),
            request.options == options,
    {
        self.features.sign_and_send_tx().call_sign_and_send_transaction(
            account,
            transaction_bytes,
            cluster,
            options,
        )
    }

    /// The request that asks the wallet to sign all of `transactions`
    /// with `account`. A wallet without the feature is not asked.
    pub fn sign_all_transactions(
        &self,
        transactions: &[Vec<u8>],
        cluster: Option<SolanaNetworkCluster>,
        account: &WalletAccount,
    ) -> (r: WalletResult<SignAllTransactionsRequest>)
        ensures
            match self@.features.sign_all_tx {
                Some(_) => r matches Ok(request) && request.account == account@.handle && buffers(
                    request.transactions@,
                ) == buffers(transactions@) && opt_view(request.chain) == chain_of(cluster),
                None => r matches Err(e) && e@
                    == WalletErrorView::MissingSignAllTransactionsFunction,
            },
    {
        match self.features.sign_all_tx() {
            Some(feature) => Ok(feature.call_sign_all_tx(account, transactions, cluster)),
            None => Err(WalletError::MissingSignAllTransactionsFunction),
        }
    }

    /// Whether the wallet can be asked to report its events.
    pub fn call_on_event(&self) -> (r: WalletResult<()>)
        ensures
            if self@.data.supported_features.events {
                r is Ok
            } else {
                r matches Err(e) && e@ == WalletErrorView::MissingStandardEventsFunction
            },
    {
        if self.data.standard_events() {
            Ok(())
        } else {
            Err(WalletError::MissingStandardEventsFunction)
        }
    }

    /// The features of the wallet.
    pub fn features(&self) -> (r: &Features)
        ensures
            r@ == self@.features,
    {
        &self.features
    }

    /// The accounts of the wallet.
    pub fn accounts(&self) -> (r: &[WalletAccount])
        ensures
            wallet_account_views(r@) == self@.accounts,
    {
        self.accounts.as_slice()
    }

    /// The plain data of the wallet.
    pub fn data(&self) -> (r: &WalletData)
        ensures
            r@ == self@.data,
    {
        &self.data
    }

    /// The chains of the wallet.
    pub fn chains(&self) -> (r: &[SolanaNetworkCluster])
        ensures
            r@ == self@.data.chains,
    {
        self.data.chains()
    }

    /// Whether the wallet supports the main network.
    pub fn mainnet(&self) -> (r: bool)
        ensures
            r == self@.data.supported_chains.mainnet,
    {
        self.data.mainnet()
    }

    /// Whether the wallet supports the development network.
    pub fn devnet(&self) -> (r: bool)
        ensures
            r == self@.data.supported_chains.devnet,
    {
        self.data.devnet()
    }

    /// Whether the wallet supports the test network.
    pub fn testnet(&self) -> (r: bool)
        ensures
            r == self@.data.supported_chains.testnet,
    {
        self.data.testnet()
    }

    /// Whether the wallet supports a local validator.
    pub fn localnet(&self) -> (r: bool)
        ensures
            r == self@.data.supported_chains.localnet,
    {
        self.data.localnet()
    }

    /// Whether the wallet offers `standard:connect`.
    pub fn standard_connect(&self) -> (r: bool)
        ensures
            r == self@.data.supported_features.connect,
    {
        self.data.standard_connect()
    }

    /// Whether the wallet offers `standard:disconnect`.
    pub fn standard_disconnect(&self) -> (r: bool)
        ensures
            r == self@.data.supported_features.disconnect,
    {
        self.data.standard_disconnect()
    }

    /// Whether the wallet offers `standard:events`.
    pub fn standard_events(&self) -> (r: bool)
        ensures
            r == self@.data.supported_features.events,
    {
        self.data.standard_events()
    }

    /// Whether the wallet offers `solana:signIn`.
    pub fn solana_signin(&self) -> (r: bool)
        ensures
            r == self@.data.supported_features.sign_in,
    {
        self.data.solana_signin()
    }

    /// Whether the wallet offers `solana:signMessage`.
    pub fn solana_sign_message(&self) -> (r: bool)
        ensures
            r == self@.data.supported_features.sign_message,
    {
        self.data.solana_sign_message()
    }

    /// Whether the wallet offers `solana:signAndSendTransaction`.
    pub fn solana_sign_and_send_transaction(&self) -> (r: bool)
        ensures
            r == self@.data.supported_features.sign_and_send_tx,
    {
        self.data.solana_sign_and_send_transaction()
    }

    /// Whether the wallet offers `solana:signTransaction`.
    pub fn solana_sign_transaction(&self) -> (r: bool)
        ensures
            r == self@.data.supported_features.sign_tx,
    {
        self.data.solana_sign_transaction()
    }

    /// Whether the wallet offers `solana:signAllTransactions`.
    pub fn solana_sign_all_transactions(&self) -> (r: bool)
        ensures
            r == self@.data.supported_features.sign_all_tx,
    {
        self.data.solana_sign_all_transactions()
    }

    /// The icon of the wallet, where it has one.
    pub fn icon(&self) -> (r: Option<&String>)
        ensures
            crate::common::signin::opt_ref_view(r) == self@.data.icon,
    {
        self.data.icon()
    }

    /// The name of the wallet.
    pub fn name(&self) -> (r: &str)
        ensures
            r@ == self@.data.name,
    {
        self.data.name()
    }

    /// The version of the wallet standard that the wallet follows.
    pub fn version(&self) -> (r: SemverVersion)
        ensures
            r == self@.data.version,
    {
        *self.data.version()
    }
}

/// An account that cannot be read makes every longer reading fail with
/// the same error.
proof fn lemma_refused_account(accounts: Seq<ReflectedAccount>, failed: int, upto: int)
    requires
        0 < failed <= upto <= accounts.len(),
        parsed_accounts(accounts, failed - 1) is Ok,
        parsed_account(accounts[failed - 1]) is Err,
    ensures
        parsed_accounts(accounts, upto) == Err::<Seq<WalletAccountView>, WalletErrorView>(
            parsed_account(accounts[failed - 1])->Err_0,
        ),
    decreases upto - failed,
{
    if failed < upto {
        lemma_refused_account(accounts, failed, upto - 1);
    }
}

} // verus!
