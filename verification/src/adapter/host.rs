//! What the host tells about a wallet, as plain values.
//!
//! The embedding program reads these values out of the wallet object that
//! the browser hands over. Nothing here is checked yet: the parsers of
//! this crate decide what a wallet with these values offers.

use vstd::prelude::*;

verus! {

/// One entry of the `supportedTransactionVersions` list of a feature.
#[derive(Debug, Clone, PartialEq, Eq)]
pub enum TransactionVersionToken {
    /// A string, such as `legacy`.
    Text(String),
    /// A whole number, such as `0`.
    Integer(i64),
    /// Any other value.
    Other,
}

/// One entry of the `features` object of a wallet.
#[derive(Debug, Clone, PartialEq, Eq)]
pub struct ReflectedFeature {
    /// The key of the entry, such as `standard:connect`.
    pub key: String,
    /// The `version` of the entry, where it is a string.
    pub version: Option<String>,
    /// The names of the members of the entry that are functions.
    pub functions: Vec<String>,
    /// The `supportedTransactionVersions` of the entry, where it is a list.
    pub supported_transaction_versions: Option<Vec<TransactionVersionToken>>,
}

/// One entry of the `accounts` list of a wallet.
#[derive(Debug, Clone, PartialEq, Eq)]
pub struct ReflectedAccount {
    /// The number under which the embedding program keeps the host's
    /// object for this account.
    pub handle: u64,
    /// The `address` of the account.
    pub address: String,
    /// The `publicKey` of the account.
    pub public_key: Vec<u8>,
    /// The `chains` of the account; empty where the host leaves them out.
    pub chains: Vec<String>,
    /// The `features` of the account; empty where the host leaves them out.
    pub features: Vec<String>,
    /// The `label` of the account, where it has one.
    pub label: Option<String>,
    /// The `icon` of the account, where it has one.
    pub icon: Option<String>,
}

/// A wallet object as the host registered it.
#[derive(Debug, Clone, PartialEq, Eq)]
pub struct ReflectedWallet {
    /// The `name` of the wallet.
    pub name: String,
    /// The `version` of the wallet.
    pub version: String,
    /// The `icon` of the wallet, where it has one.
    pub icon: Option<String>,
    /// The `chains` of the wallet.
    pub chains: Vec<String>,
    /// The `accounts` of the wallet.
    pub accounts: Vec<ReflectedAccount>,
    /// The entries of the `features` object of the wallet, in the order
    /// of its keys.
    pub features: Vec<ReflectedFeature>,
}

} // verus!
