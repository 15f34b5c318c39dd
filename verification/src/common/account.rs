//! An account of a wallet as plain data.

use crate::common::chains::ChainSupport;
use crate::common::feature_support::FeatureSupport;
use crate::text::clone_texts;
use crate::text::opt_text_equal;
use crate::text::opt_view;
use crate::text::string_views;
use crate::text::text_equal;
use crate::text::texts_equal;
use vstd::prelude::*;

verus! {

/// The fields of a [`WalletAccountData`] with texts as character sequences.
pub struct AccountView {
    pub address: Seq<char>,
    pub public_key: Seq<u8>,
    pub chains: Seq<Seq<char>>,
    pub features: Seq<Seq<char>>,
    pub label: Option<Seq<char>>,
    pub icon: Option<Seq<char>>,
    pub supported_chains: ChainSupport,
    pub supported_features: FeatureSupport,
}

/// What a wallet tells an application about one account it may use.
#[derive(Debug, Clone, PartialEq, Eq, PartialOrd, Ord, Hash)]
pub struct WalletAccountData {
    /// The address of the account, the Base58 form of its public key.
    pub address: String,
    /// The public key of the account.
    pub public_key: [u8; 32],
    /// The chains that the account supports.
    pub chains: Vec<String>,
    /// The features that the account supports.
    pub features: Vec<String>,
    /// A name for the account that may be shown to the user.
    pub label: Option<String>,
    /// An icon for the account.
    pub icon: Option<String>,
    /// The supported chains as flags.
    pub supported_chains: ChainSupport,
    /// The supported features as flags.
    pub supported_features: FeatureSupport,
}

impl View for WalletAccountData {
    type V = AccountView;

    open spec fn view(&self) -> AccountView {
        AccountView {
            address: self.address@,
            public_key: self.public_key@,
            chains: string_views(self.chains@),
            features: string_views(self.features@),
            label: opt_view(self.label),
            icon: opt_view(self.icon),
            supported_chains: self.supported_chains,
            supported_features: self.supported_features,
        }
    }
}

/// The views of a list of accounts.
pub open spec fn account_views(accounts: Seq<WalletAccountData>) -> Seq<AccountView> {
    accounts.map_values(|a: WalletAccountData| a@)
}

/// A copy of an optional text.
pub fn clone_opt_text(text: &Option<String>) -> (out: Option<String>)
    ensures
        opt_view(out) == opt_view(*text),
{
    match text {
        Some(t) => Some(t.clone()),
        None => None,
    }
}

impl Default for WalletAccountData {
    /// An account with an empty address and a key of zeros that supports nothing.
    fn default() -> (account: WalletAccountData)
        ensures
            account@.address.len() == 0,
            account@.public_key == Seq::new(32, |i: int| 0u8),
            account@.chains.len() == 0,
            account@.features.len() == 0,
            account@.label is None,
            account@.icon is None,
            account@.supported_chains == crate::common::chains::no_chains(),
            account@.supported_features == crate::common::feature_support::no_features(),
    {
        let account = WalletAccountData {
            address: String::new(),
            public_key: [0u8; 32],
            chains: Vec::new(),
            features: Vec::new(),
            label: None,
            icon: None,
            supported_chains: ChainSupport::default(),
            supported_features: FeatureSupport::default(),
        };
        proof {
            assert(account.public_key@ =~= Seq::new(32, |i: int| 0u8));
        }
        account
    }
}

impl WalletAccountData {
    /// A copy of the account, field by field.
    pub fn duplicate(&self) -> (copy: WalletAccountData)
        ensures
            copy@ == self@,
    {
        WalletAccountData {
            address: self.address.clone(),
            public_key: self.public_key,
            chains: clone_texts(&self.chains),
            features: clone_texts(&self.features),
            label: clone_opt_text(&self.label),
            icon: clone_opt_text(&self.icon),
            supported_chains: self.supported_chains,
            supported_features: self.supported_features,
        }
    }

    /// Whether `other` describes the same account: the same address, key,
    /// chains, features, label and icon.
    pub fn same_account(&self, other: &WalletAccountData) -> (r: bool)
        ensures
            r == (self@.address == other@.address && self@.public_key == other@.public_key
                && self@.chains == other@.chains && self@.features == other@.features
                && self@.label == other@.label && self@.icon == other@.icon),
    {
        text_equal(self.address.as_str(), other.address.as_str()) && crate::text::bytes_equal(
            self.public_key.as_slice(),
            other.public_key.as_slice(),
        ) && texts_equal(&self.chains, &other.chains) && texts_equal(
            &self.features,
            &other.features,
        ) && opt_text_equal(&self.label, &other.label) && opt_text_equal(&self.icon, &other.icon)
    }

    /// The address of the account.
    pub fn address(&self) -> (r: &str)
        ensures
            r@ == self@.address,
    {
        self.address.as_str()
    }

    /// The public key of the account.
    pub fn public_key(&self) -> (r: [u8; 32])
        ensures
            r@ == self@.public_key,
    {
        self.public_key
    }

    /// The chains that the account supports.
    pub fn chains(&self) -> (r: &[String])
        ensures
            string_views(r@) == self@.chains,
    {
        self.chains.as_slice()
    }

    /// The features that the account supports.
    pub fn features(&self) -> (r: &[String])
        ensures
            string_views(r@) == self@.features,
    {
        self.features.as_slice()
    }

    /// The label of the account, where it has one.
    pub fn label(&self) -> (r: Option<&String>)
        ensures
            crate::common::signin::opt_ref_view(r) == self@.label,
    {
        self.label.as_ref()
    }

    /// The icon of the account, where it has one.
    pub fn icon(&self) -> (r: Option<&String>)
        ensures
            crate::common::signin::opt_ref_view(r) == self@.icon,
    {
        self.icon.as_ref()
    }
}

} // verus!
