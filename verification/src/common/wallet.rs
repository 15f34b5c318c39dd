//! What a wallet tells about itself, as plain data.

use crate::base::clusters::Cluster;
use crate::base::version::SemverVersion;
use crate::common::account::account_views;
use crate::common::account::AccountView;
use crate::common::account::WalletAccountData;
use crate::common::chains::no_chains;
use crate::common::chains::ChainSupport;
use crate::common::clusters::SolanaNetworkCluster;
use crate::common::feature_support::no_features;
use crate::common::feature_support::FeatureSupport;
use crate::text::opt_view;
use crate::text::text_equal;
use vstd::prelude::*;

verus! {

/// The fields of a [`WalletData`] with texts as character sequences.
pub struct WalletDataView {
    pub name: Seq<char>,
    pub version: SemverVersion,
    pub icon: Option<Seq<char>>,
    pub accounts: Seq<AccountView>,
    pub chains: Seq<SolanaNetworkCluster>,
    pub supported_features: FeatureSupport,
    pub supported_chains: ChainSupport,
}

/// The name, the version, the icon, the accounts and the chains of a
/// wallet, with flags for the features and the clusters it supports.
#[derive(Debug, Clone)]
pub struct WalletData {
    name: String,
    version: SemverVersion,
    icon: Option<String>,
    accounts: Vec<WalletAccountData>,
    chains: Vec<SolanaNetworkCluster>,
    supported_features: FeatureSupport,
    supported_chains: ChainSupport,
}

impl View for WalletData {
    type V = WalletDataView;

    closed spec fn view(&self) -> WalletDataView {
        WalletDataView {
            name: self.name@,
            version: self.version,
            icon: opt_view(self.icon),
            accounts: account_views(self.accounts@),
            chains: self.chains@,
            supported_features: self.supported_features,
            supported_chains: self.supported_chains,
        }
    }
}

/// The view of a wallet of which nothing is known: no name, version
/// `1.0.0`, no accounts, no chains, nothing supported.
pub open spec fn is_blank(v: WalletDataView) -> bool {
    &&& v.name.len() == 0
    &&& v.version.numbers() == (1u8, 0u8, 0u8)
    &&& v.icon is None
    &&& v.accounts.len() == 0
    &&& v.chains.len() == 0
    &&& v.supported_features == no_features()
    &&& v.supported_chains == no_chains()
}

/// Whether two wallets are the same wallet: the same name, version and chains.
pub open spec fn same_identity(a: WalletDataView, b: WalletDataView) -> bool {
    a.name == b.name && a.version == b.version && a.chains == b.chains
}

impl Default for WalletData {
    /// A wallet of which nothing is known.
    fn default() -> (data: WalletData)
        ensures
            is_blank(data@),
    {
        WalletData::new()
    }
}

impl PartialEq for WalletData {
    /// Whether `other` is the same wallet: the same name, version and chains.
    fn eq(&self, other: &WalletData) -> (r: bool) {
        self.same_wallet(other)
    }
}

impl vstd::std_specs::cmp::PartialEqSpecImpl for WalletData {
    open spec fn obeys_eq_spec() -> bool {
        true
    }

    open spec fn eq_spec(&self, other: &WalletData) -> bool {
        same_identity(self@, other@)
    }
}

impl Eq for WalletData {

}

impl WalletData {
    /// A wallet of which nothing is known.
    pub fn new() -> (data: WalletData)
        ensures
            is_blank(data@),
    {
        WalletData {
            name: String::new(),
            version: SemverVersion::new(),
            icon: None,
            accounts: Vec::new(),
            chains: Vec::new(),
            supported_features: FeatureSupport::default(),
            supported_chains: ChainSupport::default(),
        }
    }

    /// Whether `other` is the same wallet: the same name, version and chains.
    pub fn same_wallet(&self, other: &WalletData) -> (r: bool)
        ensures
            r == same_identity(self@, other@),
    {
        if !text_equal(self.name.as_str(), other.name.as_str()) {
            return false;
        }
        if self.version != other.version {
            return false;
        }
        let n: usize = self.chains.len();
        if n != other.chains.len() {
            return false;
        }
        let mut i: usize = 0;
        while i < n
            invariant
                n == self.chains@.len(),
                n == other.chains@.len(),
                i <= n,
                forall|j: int| 0 <= j < i ==> self.chains@[j] == other.chains@[j],
            decreases n - i,
        {
            if self.chains[i] != other.chains[i] {
                return false;
            }
            i += 1;
        }
        proof {
            assert(self.chains@ =~= other.chains@);
        }
        true
    }

    /// The same wallet under another name.
    pub fn set_name(self, name: &str) -> (data: WalletData)
        ensures
            data@ == (WalletDataView { name: name@, ..self@ }),
    {
        let mut data = self;
        data.name = name.to_owned();
        data
    }

    /// The same wallet with another version.
    pub fn set_version(self, version: SemverVersion) -> (data: WalletData)
        ensures
            data@ == (WalletDataView { version, ..self@ }),
    {
        let mut data = self;
        data.version = version;
        data
    }

    /// The same wallet with the icon `icon`, or unchanged where `icon` is `None`.
    pub fn set_icon(self, icon: Option<&str>) -> (data: WalletData)
        ensures
            data@ == match icon {
                Some(text) => WalletDataView { icon: Some(text@), ..self@ },
                None => self@,
            },
    {
        let mut data = self;
        match icon {
            Some(text) => {
                data.icon = Some(text.to_owned());
            },
            None => {},
        }
        data
    }

    /// The same wallet with `account` after its accounts.
    pub fn add_account(self, account: WalletAccountData) -> (data: WalletData)
        ensures
            data@ == (WalletDataView { accounts: self@.accounts.push(account@), ..self@ }),
    {
        let mut data = self;
        let ghost before = data.accounts@;
        data.accounts.push(account);
        proof {
            assert(account_views(data.accounts@) =~= account_views(before).push(account@));
        }
        data
    }

    /// The same wallet with `accounts`, in order, after its accounts.
    pub fn add_accounts(self, accounts: &[WalletAccountData]) -> (data: WalletData)
        ensures
            data@ == (WalletDataView {
                accounts: self@.accounts + account_views(accounts@),
                ..self@
            }),
    {
        let mut data = self;
        let n: usize = accounts.len();
        let mut i: usize = 0;
        proof {
            assert(self@.accounts + account_views(accounts@).subrange(0, 0) =~= self@.accounts);
        }
        while i < n
            invariant
                n == accounts@.len(),
                i <= n,
                data@ == (WalletDataView {
                    accounts: self@.accounts + account_views(accounts@).subrange(0, i as int),
                    ..self@
                }),
            decreases n - i,
        {
            let ghost before = data.accounts@;
            let account = accounts[i].duplicate();
            data.accounts.push(account);
            proof {
                assert(account_views(data.accounts@) =~= account_views(before).push(
                    accounts@[i as int]@,
                ));
                assert(self@.accounts + account_views(accounts@).subrange(0, i + 1) =~= (
                self@.accounts + account_views(accounts@).subrange(0, i as int)).push(
                    accounts@[i as int]@,
                ));
            }
            i += 1;
        }
        proof {
            assert(account_views(accounts@).subrange(0, n as int) =~= account_views(accounts@));
        }
        data
    }

    /// The same wallet with `accounts` in place of its accounts.
    pub fn replace_accounts(self, accounts: Vec<WalletAccountData>) -> (data: WalletData)
        ensures
            data@ == (WalletDataView { accounts: account_views(accounts@), ..self@ }),
    {
        let mut data = self;
        data.accounts = accounts;
        data
    }

    /// The same wallet with `chain` after its chains.
    pub fn add_chain(self, chain: SolanaNetworkCluster) -> (data: WalletData)
        ensures
            data@ == (WalletDataView { chains: self@.chains.push(chain), ..self@ }),
    {
        let mut data = self;
        data.chains.push(chain);
        data
    }

    /// The same wallet with `chains`, in order, after its chains.
    pub fn add_chains(self, chains: &[SolanaNetworkCluster]) -> (data: WalletData)
        ensures
            data@ == (WalletDataView { chains: self@.chains + chains@, ..self@ }),
    {
        let mut data = self;
        let n: usize = chains.len();
        let mut i: usize = 0;
        proof {
            assert(self@.chains + chains@.subrange(0, 0) =~= self@.chains);
        }
        while i < n
            invariant
                n == chains@.len(),
                i <= n,
                data@ == (WalletDataView {
                    chains: self@.chains + chains@.subrange(0, i as int),
                    ..self@
                }),
            decreases n - i,
        {
            data.chains.push(chains[i]);
            proof {
                assert(self@.chains + chains@.subrange(0, i + 1) =~= (self@.chains
                    + chains@.subrange(0, i as int)).push(chains@[i as int]));
            }
            i += 1;
        }
        proof {
            assert(chains@.subrange(0, n as int) =~= chains@);
        }
        data
    }

    /// The same wallet with `chains` in place of its chains.
    pub fn replace_chains(self, chains: Vec<SolanaNetworkCluster>) -> (data: WalletData)
        ensures
            data@ == (WalletDataView { chains: chains@, ..self@ }),
    {
        let mut data = self;
        data.chains = chains;
        data
    }

    /// The same wallet with other flags for its features.
    pub fn set_supported_features(self, supported_features: FeatureSupport) -> (data: WalletData)
        ensures
            data@ == (WalletDataView { supported_features, ..self@ }),
    {
        let mut data = self;
        data.supported_features = supported_features;
        data
    }

    /// The same wallet with other flags for its clusters.
    pub fn set_supported_chains(self, supported_chains: ChainSupport) -> (data: WalletData)
        ensures
            data@ == (WalletDataView { supported_chains, ..self@ }),
    {
        let mut data = self;
        data.supported_chains = supported_chains;
        data
    }

    /// The accounts of the wallet.
    pub fn accounts(&self) -> (r: &[WalletAccountData])
        ensures
            account_views(r@) == self@.accounts,
    {
        self.accounts.as_slice()
    }

    /// The chains of the wallet.
    pub fn chains(&self) -> (r: &[SolanaNetworkCluster])
        ensures
            r@ == self@.chains,
    {
        self.chains.as_slice()
    }

    /// Whether the wallet supports the main network.
    pub fn mainnet(&self) -> (r: bool)
        ensures
            r == self@.supported_chains.mainnet,
    {
        self.supported_chains.mainnet
    }

    /// Whether the wallet supports the development network.
    pub fn devnet(&self) -> (r: bool)
        ensures
            r == self@.supported_chains.devnet,
    {
        self.supported_chains.devnet
    }

    /// Whether the wallet supports the test network.
    pub fn testnet(&self) -> (r: bool)
        ensures
            r == self@.supported_chains.testnet,
    {
        self.supported_chains.testnet
    }

    /// Whether the wallet supports a local validator.
    pub fn localnet(&self) -> (r: bool)
        ensures
            r == self@.supported_chains.localnet,
    {
        self.supported_chains.localnet
    }

    /// Whether the wallet offers `standard:connect`.
    pub fn standard_connect(&self) -> (r: bool)
        ensures
            r == self@.supported_features.connect,
    {
        self.supported_features.connect
    }

    /// Whether the wallet offers `standard:disconnect`.
    pub fn standard_disconnect(&self) -> (r: bool)
        ensures
            r == self@.supported_features.disconnect,
    {
        self.supported_features.disconnect
    }

    /// Whether the wallet offers `standard:events`.
    pub fn standard_events(&self) -> (r: bool)
        ensures
            r == self@.supported_features.events,
    {
        self.supported_features.events
    }

    /// Whether the wallet offers `solana:signIn`.
    pub fn solana_signin(&self) -> (r: bool)
        ensures
            r == self@.supported_features.sign_in,
    {
        self.supported_features.sign_in
    }

    /// Whether the wallet offers `solana:signMessage`.
    pub fn solana_sign_message(&self) -> (r: bool)
        ensures
            r == self@.supported_features.sign_message,
    {
        self.supported_features.sign_message
    }

    /// Whether the wallet offers `solana:signAndSendTransaction`.
    pub fn solana_sign_and_send_transaction(&self) -> (r: bool)
        ensures
            r == self@.supported_features.sign_and_send_tx,
    {
        self.supported_features.sign_and_send_tx
    }

    /// Whether the wallet offers `solana:signTransaction`.
    pub fn solana_sign_transaction(&self) -> (r: bool)
        ensures
            r == self@.supported_features.sign_tx,
    {
        self.supported_features.sign_tx
    }

    /// Whether the wallet offers `solana:signAllTransactions`.
    pub fn solana_sign_all_transactions(&self) -> (r: bool)
        ensures
            r == self@.supported_features.sign_all_tx,
    {
        self.supported_features.sign_all_tx
    }

    /// The icon of the wallet, where it has one.
    pub fn icon(&self) -> (r: Option<&String>)
        ensures
            crate::common::signin::opt_ref_view(r) == self@.icon,
    {
        self.icon.as_ref()
    }

    /// The name of the wallet.
    pub fn name(&self) -> (r: &str)
        ensures
            r@ == self@.name,
    {
        self.name.as_str()
    }

    /// The version of the wallet standard that the wallet follows.
    pub fn version(&self) -> (r: &SemverVersion)
        ensures
            *r == self@.version,
    {
        &self.version
    }

    /// A copy of the wallet, field by field.
    pub fn duplicate(&self) -> (copy: WalletData)
        ensures
            copy@ == self@,
    {
        let mut accounts: Vec<WalletAccountData> = Vec::new();
        let n: usize = self.accounts.len();
        let mut i: usize = 0;
        while i < n
            invariant
                n == self.accounts@.len(),
                i <= n,
                accounts@.len() == i,
                forall|j: int| 0 <= j < i ==> accounts@[j]@ == self.accounts@[j]@,
            decreases n - i,
        {
            accounts.push(self.accounts[i].duplicate());
            i += 1;
        }
        proof {
            assert(account_views(accounts@) =~= account_views(self.accounts@));
        }
        WalletData {
            name: self.name.clone(),
            version: self.version,
            icon: crate::common::account::clone_opt_text(&self.icon),
            accounts,
            chains: self.chains.clone(),
            supported_features: self.supported_features,
            supported_chains: self.supported_chains,
        }
    }
}

} // verus!
