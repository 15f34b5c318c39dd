//! An account of a wallet, as read from the host.

use crate::adapter::errors::WalletError;
use crate::adapter::errors::WalletErrorView;
use crate::adapter::errors::WalletResult;
use crate::adapter::host::ReflectedAccount;
use crate::common::account::AccountView;
use crate::common::account::WalletAccountData;
use crate::common::chains::ChainSupport;
use crate::common::feature_support::FeatureSupport;
use crate::common::utils::shortened;
use crate::common::utils::WalletCommonUtils;
use crate::text::first_refused;
use crate::text::lemma_first_refused_skip;
use crate::text::opt_view;
use crate::text::string_views;
use crate::text::text_equal;
use vstd::prelude::*;

verus! {

/// Whether `text` is the chain identifier of one of the four Solana clusters.
pub open spec fn is_solana_chain(text: Seq<char>) -> bool {
    text == "solana:mainnet"@ || text == "solana:devnet"@ || text == "solana:testnet"@ || text
        == "solana:localnet"@
}

/// Whether `text` is the identifier of one of the eight features of the
/// wallet standard.
pub open spec fn is_standard_feature(text: Seq<char>) -> bool {
    text == "standard:connect"@ || text == "standard:disconnect"@ || text == "standard:events"@
        || text == "solana:signIn"@ || text == "solana:signAndSendTransaction"@ || text
        == "solana:signTransaction"@ || text == "solana:signMessage"@ || text
        == "solana:signAllTransactions"@
}

/// The flags of the clusters whose chain identifiers occur in `chains`.
pub open spec fn chain_flags(chains: Seq<Seq<char>>) -> ChainSupport {
    ChainSupport {
        mainnet: chains.contains("solana:mainnet"@),
        devnet: chains.contains("solana:devnet"@),
        testnet: chains.contains("solana:testnet"@),
        localnet: chains.contains("solana:localnet"@),
    }
}

/// The flags of the features whose identifiers occur in `features`.
pub open spec fn feature_flags(features: Seq<Seq<char>>) -> FeatureSupport {
    FeatureSupport {
        connect: features.contains("standard:connect"@),
        disconnect: features.contains("standard:disconnect"@),
        events: features.contains("standard:events"@),
        sign_in: features.contains("solana:signIn"@),
        sign_message: features.contains("solana:signMessage"@),
        sign_and_send_tx: features.contains("solana:signAndSendTransaction"@),
        sign_tx: features.contains("solana:signTransaction"@),
        sign_all_tx: features.contains("solana:signAllTransactions"@),
    }
}

/// An account with the number under which the host's object is kept.
pub struct WalletAccountView {
    pub account: AccountView,
    pub handle: u64,
}

/// The account that the reflected values describe, or the reason why they
/// describe none: a public key that does not have 32 bytes, the first
/// chain that is no Solana chain, or the first feature that the wallet
/// standard does not know, in this order.
pub open spec fn parsed_account(r: ReflectedAccount) -> Result<WalletAccountView, WalletErrorView> {
    let chains = string_views(r.chains@);
    let features = string_views(r.features@);
    if r.public_key@.len() != 32 {
        Err(WalletErrorView::Expected32ByteLength)
    } else if first_refused(chains, |c: Seq<char>| is_solana_chain(c)) is Some {
        Err(
            WalletErrorView::UnsupportedChain(
                first_refused(chains, |c: Seq<char>| is_solana_chain(c))->0,
            ),
        )
    } else if first_refused(features, |f: Seq<char>| is_standard_feature(f)) is Some {
        Err(
            WalletErrorView::UnsupportedWalletFeature(
                first_refused(features, |f: Seq<char>| is_standard_feature(f))->0,
            ),
        )
    } else {
        Ok(
            WalletAccountView {
                account: AccountView {
                    address: r.address@,
                    public_key: r.public_key@,
                    chains,
                    features,
                    label: opt_view(r.label),
                    icon: opt_view(r.icon),
                    supported_chains: chain_flags(chains),
                    supported_features: feature_flags(features),
                },
                handle: r.handle,
            },
        )
    }
}

/// The flags for `chains`, or the first of them that is no Solana chain.
pub fn read_chain_support(chains: &Vec<String>) -> (r: Result<ChainSupport, String>)
    ensures
        match first_refused(string_views(chains@), |c: Seq<char>| is_solana_chain(c)) {
            Some(chain) => r matches Err(text) && text@ == chain,
            None => r matches Ok(flags) && flags == chain_flags(string_views(chains@)),
        },
{
    let ghost items = string_views(chains@);
    let ghost accepted = |c: Seq<char>| is_solana_chain(c);
    let mut flags = ChainSupport { mainnet: false, devnet: false, testnet: false, localnet: false };
    let n: usize = chains.len();
    let mut i: usize = 0;
    while i < n
        invariant
            n == chains@.len(),
            i <= n,
            items == string_views(chains@),
            accepted == (|c: Seq<char>| is_solana_chain(c)),
            forall|j: int| 0 <= j < i ==> accepted(#[trigger] items[j]),
            flags == chain_flags(items.subrange(0, i as int)),
        decreases n - i,
    {
        let chain = chains[i].as_str();
        let ghost before = items.subrange(0, i as int);
        proof {
            assert(items[i as int] == chain@);
            assert(items.subrange(0, i + 1) =~= before.push(chain@));
            assert forall|t: Seq<char>| before.push(chain@).contains(t) <==> (before.contains(t)
                || t == chain@) by {
                if before.contains(t) {
                    let k = choose|k: int| 0 <= k < before.len() && before[k] == t;
                    assert(before.push(chain@)[k] == t);
                }
                if t == chain@ {
                    assert(before.push(chain@)[before.len() as int] == t);
                }
            }
        }
        if text_equal(chain, "solana:mainnet") {
            flags.mainnet = true;
        } else if text_equal(chain, "solana:devnet") {
            flags.devnet = true;
        } else if text_equal(chain, "solana:testnet") {
            flags.testnet = true;
        } else if text_equal(chain, "solana:localnet") {
            flags.localnet = true;
        } else {
            proof {
                lemma_first_refused_skip(items, accepted, i as int);
                assert(items.subrange(i as int, n as int)[0] == chain@);
            }
            return Err(chains[i].clone());
        }
        proof {
            lemma_distinct_chains();
        }
        i += 1;
    }
    proof {
        lemma_first_refused_skip(items, accepted, n as int);
        assert(items.subrange(0, n as int) =~= items);
    }
    Ok(flags)
}

/// The four chain identifiers differ from one another.
pub proof fn lemma_distinct_chains()
    ensures
        "solana:mainnet"@ != "solana:devnet"@,
        "solana:mainnet"@ != "solana:testnet"@,
        "solana:mainnet"@ != "solana:localnet"@,
        "solana:devnet"@ != "solana:testnet"@,
        "solana:devnet"@ != "solana:localnet"@,
        "solana:testnet"@ != "solana:localnet"@,
{
    reveal_strlit("solana:mainnet");
    reveal_strlit("solana:devnet");
    reveal_strlit("solana:testnet");
    reveal_strlit("solana:localnet");
    assert("solana:mainnet"@[7] == 'm');
    assert("solana:devnet"@[7] == 'd');
    assert("solana:testnet"@[7] == 't');
    assert("solana:localnet"@[7] == 'l');
}

/// The eight feature identifiers differ from one another.
pub proof fn lemma_distinct_features()
    ensures
        "standard:connect"@ != "standard:disconnect"@,
        "standard:connect"@ != "standard:events"@,
        "standard:disconnect"@ != "standard:events"@,
        "solana:signIn"@ != "solana:signMessage"@,
        "solana:signIn"@ != "solana:signTransaction"@,
        "solana:signIn"@ != "solana:signAndSendTransaction"@,
        "solana:signIn"@ != "solana:signAllTransactions"@,
        "solana:signMessage"@ != "solana:signTransaction"@,
        "solana:signMessage"@ != "solana:signAndSendTransaction"@,
        "solana:signMessage"@ != "solana:signAllTransactions"@,
        "solana:signTransaction"@ != "solana:signAndSendTransaction"@,
        "solana:signTransaction"@ != "solana:signAllTransactions"@,
        "solana:signAndSendTransaction"@ != "solana:signAllTransactions"@,
        "standard:connect"@[1] == 't',
        "standard:disconnect"@[1] == 't',
        "standard:events"@[1] == 't',
        "solana:signIn"@[1] == 'o',
        "solana:signMessage"@[1] == 'o',
        "solana:signTransaction"@[1] == 'o',
        "solana:signAndSendTransaction"@[1] == 'o',
        "solana:signAllTransactions"@[1] == 'o',
{
    reveal_strlit("standard:connect");
    reveal_strlit("standard:disconnect");
    reveal_strlit("standard:events");
    reveal_strlit("solana:signIn");
    reveal_strlit("solana:signMessage");
    reveal_strlit("solana:signTransaction");
    reveal_strlit("solana:signAndSendTransaction");
    reveal_strlit("solana:signAllTransactions");
    assert("standard:connect"@[9] == 'c');
    assert("standard:disconnect"@[9] == 'd');
    assert("standard:events"@[9] == 'e');
    assert("solana:signIn"@.len() == 13);
    assert("solana:signMessage"@.len() == 18);
    assert("solana:signTransaction"@.len() == 22);
    assert("solana:signAndSendTransaction"@.len() == 29);
    assert("solana:signAllTransactions"@.len() == 26);
}

/// The flags for `features`, or the first of them that the wallet
/// standard does not know.
pub fn read_feature_support(features: &Vec<String>) -> (r: Result<FeatureSupport, String>)
    ensures
        match first_refused(string_views(features@), |f: Seq<char>| is_standard_feature(f)) {
            Some(feature) => r matches Err(text) && text@ == feature,
            None => r matches Ok(flags) && flags == feature_flags(string_views(features@)),
        },
{
    let ghost items = string_views(features@);
    let ghost accepted = |f: Seq<char>| is_standard_feature(f);
    let mut flags = FeatureSupport {
        connect: false,
        disconnect: false,
        events: false,
        sign_in: false,
        sign_message: false,
        sign_and_send_tx: false,
        sign_tx: false,
        sign_all_tx: false,
    };
    let n: usize = features.len();
    let mut i: usize = 0;
    while i < n
        invariant
            n == features@.len(),
            i <= n,
            items == string_views(features@),
            accepted == (|f: Seq<char>| is_standard_feature(f)),
            forall|j: int| 0 <= j < i ==> accepted(#[trigger] items[j]),
            flags == feature_flags(items.subrange(0, i as int)),
        decreases n - i,
    {
        let feature = features[i].as_str();
        let ghost before = items.subrange(0, i as int);
        proof {
            assert(items[i as int] == feature@);
            assert(items.subrange(0, i + 1) =~= before.push(feature@));
            assert forall|t: Seq<char>| before.push(feature@).contains(t) <==> (before.contains(t)
                || t == feature@) by {
                if before.contains(t) {
                    let k = choose|k: int| 0 <= k < before.len() && before[k] == t;
                    assert(before.push(feature@)[k] == t);
                }
                if t == feature@ {
                    assert(before.push(feature@)[before.len() as int] == t);
                }
            }
            lemma_distinct_features();
        }
        if text_equal(feature, "standard:connect") {
            flags.connect = true;
        } else if text_equal(feature, "standard:disconnect") {
            flags.disconnect = true;
        } else if text_equal(feature, "standard:events") {
            flags.events = true;
        } else if text_equal(feature, "solana:signIn") {
            flags.sign_in = true;
        } else if text_equal(feature, "solana:signAndSendTransaction") {
            flags.sign_and_send_tx = true;
        } else if text_equal(feature, "solana:signTransaction") {
            flags.sign_tx = true;
        } else if text_equal(feature, "solana:signMessage") {
            flags.sign_message = true;
        } else if text_equal(feature, "solana:signAllTransactions") {
            flags.sign_all_tx = true;
        } else {
            proof {
                lemma_first_refused_skip(items, accepted, i as int);
                assert(items.subrange(i as int, n as int)[0] == feature@);
            }
            return Err(features[i].clone());
        }
        i += 1;
    }
    proof {
        lemma_first_refused_skip(items, accepted, n as int);
        assert(items.subrange(0, n as int) =~= items);
    }
    Ok(flags)
}

/// An account that a wallet lets the application use: what the wallet
/// tells about it, and the number under which the embedding program keeps
/// the host's object, which a request to the wallet has to name.
#[derive(Debug, Clone)]
pub struct WalletAccount {
    pub(crate) account: WalletAccountData,
    pub(crate) handle: u64,
}

impl View for WalletAccount {
    type V = WalletAccountView;

    closed spec fn view(&self) -> WalletAccountView {
        WalletAccountView { account: self.account@, handle: self.handle }
    }
}

/// Whether two accounts are the same to the application: the same
/// address, key, chains, features, label and icon. The handle of the host
/// does not count.
pub open spec fn same_account_view(a: AccountView, b: AccountView) -> bool {
    a.address == b.address && a.public_key == b.public_key && a.chains == b.chains && a.features
        == b.features && a.label == b.label && a.icon == b.icon
}

impl PartialEq for WalletAccount {
    /// Whether `other` is the same account to the application.
    fn eq(&self, other: &WalletAccount) -> (r: bool) {
        self.account.same_account(&other.account)
    }
}

impl vstd::std_specs::cmp::PartialEqSpecImpl for WalletAccount {
    open spec fn obeys_eq_spec() -> bool {
        true
    }

    open spec fn eq_spec(&self, other: &WalletAccount) -> bool {
        same_account_view(self@.account, other@.account)
    }
}

impl Eq for WalletAccount {

}

impl WalletAccount {
    /// Reads an account from the values that the host reflects.
    pub fn parse(reflection: &ReflectedAccount) -> (r: WalletResult<WalletAccount>)
        ensures
            match parsed_account(*reflection) {
                Ok(v) => r matches Ok(account) && account@ == v,
                Err(e) => r matches Err(x) && x@ == e,
            },
    {
        let public_key = match WalletCommonUtils::to32byte_array(reflection.public_key.as_slice()) {
            Ok(key) => key,
            Err(_) => {
                return Err(WalletError::Expected32ByteLength);
            },
        };
        let supported_chains = match read_chain_support(&reflection.chains) {
            Ok(flags) => flags,
            Err(chain) => {
                return Err(WalletError::UnsupportedChain(chain));
            },
        };
        let supported_features = match read_feature_support(&reflection.features) {
            Ok(flags) => flags,
            Err(feature) => {
                return Err(WalletError::UnsupportedWalletFeature(feature));
            },
        };
        let account = WalletAccountData {
            address: reflection.address.clone(),
            public_key,
            chains: crate::text::clone_texts(&reflection.chains),
            features: crate::text::clone_texts(&reflection.features),
            label: crate::common::account::clone_opt_text(&reflection.label),
            icon: crate::common::account::clone_opt_text(&reflection.icon),
            supported_chains,
            supported_features,
        };
        Ok(WalletAccount { account, handle: reflection.handle })
    }

    /// The account that a notification of a wallet carries: the first of
    /// the accounts that it lists, where there is one and it can be read.
    pub fn first_of(accounts: &[ReflectedAccount]) -> (r: Option<WalletAccount>)
        ensures
            match r {
                Some(account) => accounts@.len() > 0 && parsed_account(accounts@[0]) == Ok::<
                    WalletAccountView,
                    WalletErrorView,
                >(account@),
                None => accounts@.len() == 0 || parsed_account(accounts@[0]) is Err,
            },
    {
        if accounts.len() == 0 {
            return None;
        }
        match WalletAccount::parse(&accounts[0]) {
            Ok(account) => Some(account),
            Err(_) => None,
        }
    }

    /// A copy of the account.
    pub fn duplicate(&self) -> (copy: WalletAccount)
        ensures
            copy@ == self@,
    {
        WalletAccount { account: self.account.duplicate(), handle: self.handle }
    }

    /// Whether `other` is the same account to the application.
    pub fn same_account(&self, other: &WalletAccount) -> (r: bool)
        ensures
            r == same_account_view(self@.account, other@.account),
    {
        self.account.same_account(&other.account)
    }

    /// The account as plain data.
    pub fn data(&self) -> (r: &WalletAccountData)
        ensures
            r@ == self@.account,
    {
        &self.account
    }

    /// The account as plain data, without the handle.
    pub fn into_data(self) -> (r: WalletAccountData)
        ensures
            r@ == self@.account,
    {
        self.account
    }

    /// The number under which the embedding program keeps the host's
    /// object for this account.
    pub fn handle(&self) -> (r: u64)
        ensures
            r == self@.handle,
    {
        self.handle
    }

    /// The address of the account.
    pub fn address(&self) -> (r: &str)
        ensures
            r@ == self@.account.address,
    {
        self.account.address.as_str()
    }

    /// The public key of the account.
    pub fn public_key(&self) -> (r: [u8; 32])
        ensures
            r@ == self@.account.public_key,
    {
        self.account.public_key
    }

    /// The chains that the account supports.
    pub fn chains(&self) -> (r: &[String])
        ensures
            string_views(r@) == self@.account.chains,
    {
        self.account.chains.as_slice()
    }

    /// The features that the account supports.
    pub fn features(&self) -> (r: &[String])
        ensures
            string_views(r@) == self@.account.features,
    {
        self.account.features.as_slice()
    }

    /// The label of the account, where it has one.
    pub fn label(&self) -> (r: Option<&String>)
        ensures
            crate::common::signin::opt_ref_view(r) == self@.account.label,
    {
        self.account.label.as_ref()
    }

    /// The icon of the account, where it has one.
    pub fn icon(&self) -> (r: Option<&String>)
        ensures
            crate::common::signin::opt_ref_view(r) == self@.account.icon,
    {
        self.account.icon.as_ref()
    }

    /// The address reduced to its first and last four characters, such as
    /// `FXdl...RGd4`. An address of fewer than eight characters is refused.
    pub fn shorten_address(&self) -> (r: WalletResult<String>)
        ensures
            if 8 <= self@.account.address.len() {
                r matches Ok(text) && text@ == shortened(self@.account.address, 4, 4)
            } else {
                r matches Err(e) && e@ == WalletErrorView::InvalidBase58Address
            },
    {
        match WalletCommonUtils::shorten_base58(self.account.address.as_str()) {
            Ok(text) => Ok(text),
            Err(e) => Err(WalletError::from(e)),
        }
    }

    /// The address reduced to its first and last `take` characters.
    pub fn custom_shorten_address(&self, take: usize) -> (r: WalletResult<String>)
        ensures
            if take + take <= self@.account.address.len() {
                r matches Ok(text) && text@ == shortened(
                    self@.account.address,
                    take as int,
                    take as int,
                )
            } else {
                r matches Err(e) && e@ == WalletErrorView::InvalidBase58Address
            },
    {
        match WalletCommonUtils::custom_shorten_base58(self.account.address.as_str(), take) {
            Ok(text) => Ok(text),
            Err(e) => Err(WalletError::from(e)),
        }
    }

    /// The address reduced to its first `left` and last `right` characters.
    pub fn custom_shorten_address_rl(&self, left: usize, right: usize) -> (r: WalletResult<String>)
        ensures
            if left + right <= self@.account.address.len() {
                r matches Ok(text) && text@ == shortened(
                    self@.account.address,
                    left as int,
                    right as int,
                )
            } else {
                r matches Err(e) && e@ == WalletErrorView::InvalidBase58Address
            },
    {
        match WalletCommonUtils::custom_shorten_address_rl(
            self.account.address.as_str(),
            left,
            right,
        ) {
            Ok(text) => Ok(text),
            Err(e) => Err(WalletError::from(e)),
        }
    }

    /// Whether the account supports the main network.
    pub fn mainnet(&self) -> (r: bool)
        ensures
            r == self@.account.supported_chains.mainnet,
    {
        self.account.supported_chains.mainnet
    }

    /// Whether the account supports the development network.
    pub fn devnet(&self) -> (r: bool)
        ensures
            r == self@.account.supported_chains.devnet,
    {
        self.account.supported_chains.devnet
    }

    /// Whether the account supports the test network.
    pub fn testnet(&self) -> (r: bool)
        ensures
            r == self@.account.supported_chains.testnet,
    {
        self.account.supported_chains.testnet
    }

    /// Whether the account supports a local validator.
    pub fn localnet(&self) -> (r: bool)
        ensures
            r == self@.account.supported_chains.localnet,
    {
        self.account.supported_chains.localnet
    }

    /// Whether the account supports `standard:connect`.
    pub fn standard_connect(&self) -> (r: bool)
        ensures
            r == self@.account.supported_features.connect,
    {
        self.account.supported_features.connect
    }

    /// Whether the account supports `standard:disconnect`.
    pub fn standard_disconnect(&self) -> (r: bool)
        ensures
            r == self@.account.supported_features.disconnect,
    {
        self.account.supported_features.disconnect
    }

    /// Whether the account supports `standard:events`.
    pub fn standard_events(&self) -> (r: bool)
        ensures
            r == self@.account.supported_features.events,
    {
        self.account.supported_features.events
    }

    /// Whether the account supports `solana:signIn`.
    pub fn solana_signin(&self) -> (r: bool)
        ensures
            r == self@.account.supported_features.sign_in,
    {
        self.account.supported_features.sign_in
    }

    /// Whether the account supports `solana:signMessage`.
    pub fn solana_sign_message(&self) -> (r: bool)
        ensures
            r == self@.account.supported_features.sign_message,
    {
        self.account.supported_features.sign_message
    }

    /// Whether the account supports `solana:signAndSendTransaction`.
    pub fn solana_sign_and_send_transaction(&self) -> (r: bool)
        ensures
            r == self@.account.supported_features.sign_and_send_tx,
    {
        self.account.supported_features.sign_and_send_tx
    }

    /// Whether the account supports `solana:signTransaction`.
    pub fn solana_sign_transaction(&self) -> (r: bool)
        ensures
            r == self@.account.supported_features.sign_tx,
    {
        self.account.supported_features.sign_tx
    }

    /// Whether the account supports `solana:signAllTransactions`.
    pub fn solana_sign_all_transactions(&self) -> (r: bool)
        ensures
            r == self@.account.supported_features.sign_all_tx,
    {
        self.account.supported_features.sign_all_tx
    }
}

} // verus!
