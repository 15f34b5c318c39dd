//! Signing transactions: what a wallet supports, the requests that are
//! handed to it, and the checks on what it hands back.

use crate::adapter::errors::WalletError;
use crate::adapter::errors::WalletErrorView;
use crate::adapter::errors::WalletResult;
use crate::adapter::host::ReflectedFeature;
use crate::adapter::host::TransactionVersionToken;
use crate::adapter::wallet_account::WalletAccount;
use crate::base::clusters::Cluster;
use crate::base::version::SemverVersion;
use crate::common::clusters::SolanaNetworkCluster;
use crate::common::commitment::SolanaNetworkCommitment;
use crate::common::utils::WalletCommonUtils;
use crate::text::string_views;
use crate::text::text_equal;
use vstd::prelude::*;
use vstd::slice::slice_to_vec;

verus! {

/// Whether the token names legacy transactions.
pub open spec fn is_legacy(token: TransactionVersionToken) -> bool {
    token matches TransactionVersionToken::Text(text) && text@ == "legacy"@
}

/// Whether the token names transactions of version zero.
pub open spec fn is_version_zero(token: TransactionVersionToken) -> bool {
    token matches TransactionVersionToken::Integer(n) && n == 0
}

/// What a list of supported transaction versions says: whether legacy
/// transactions and transactions of version zero are supported. A token
/// that names neither is an error, and so is a list without legacy.
pub open spec fn version_support(tokens: Seq<TransactionVersionToken>) -> Result<
    (bool, bool),
    WalletErrorView,
> {
    if exists|i: int| 0 <= i < tokens.len() && !is_legacy(tokens[i]) && !is_version_zero(tokens[i]) {
        Err(WalletErrorView::UnsupportedTransactionVersion)
    } else if !(exists|i: int| 0 <= i < tokens.len() && is_legacy(tokens[i])) {
        Err(WalletErrorView::LegacyTransactionSupportRequired)
    } else {
        Ok((true, exists|i: int| 0 <= i < tokens.len() && is_version_zero(tokens[i])))
    }
}

/// A list of supported transaction versions in which legacy does not
/// occur is refused, whatever else it holds.
pub proof fn law_legacy_is_required(tokens: Seq<TransactionVersionToken>)
    requires
        forall|i: int| 0 <= i < tokens.len() ==> !is_legacy(tokens[i]),
    ensures
        version_support(tokens) is Err,
{
}

/// Whether the names of the functions of `feature` hold `name`.
pub open spec fn has_function(feature: ReflectedFeature, name: Seq<char>) -> bool {
    string_views(feature.functions@).contains(name)
}

/// Decides `has_function`.
pub fn feature_has_function(feature: &ReflectedFeature, name: &str) -> (r: bool)
    ensures
        r == has_function(*feature, name@),
{
    let ghost names = string_views(feature.functions@);
    let n: usize = feature.functions.len();
    let mut i: usize = 0;
    while i < n
        invariant
            n == feature.functions@.len(),
            i <= n,
            names == string_views(feature.functions@),
            forall|j: int| 0 <= j < i ==> names[j] != name@,
        decreases n - i,
    {
        if text_equal(feature.functions[i].as_str(), name) {
            proof {
                assert(names[i as int] == name@);
            }
            return true;
        }
        i += 1;
    }
    false
}

/// What a transaction signing feature of a wallet supports.
#[derive(Debug, Clone, Copy, PartialEq, Eq, Structural, PartialOrd, Ord, Hash)]
pub struct SignTransaction {
    /// The version of the feature.
    pub version: SemverVersion,
    /// Whether the wallet signs legacy transactions.
    pub legacy: bool,
    /// Whether the wallet signs transactions of version zero.
    pub version_zero: bool,
}

/// What the transaction signing feature `feature` with the function `key`
/// supports, or the reason why the wallet cannot be used: the function is
/// missing, the list of supported transaction versions is missing, or the
/// list is not acceptable.
pub open spec fn transaction_feature(feature: ReflectedFeature, version: SemverVersion, key: Seq<
    char,
>) -> Result<SignTransaction, WalletErrorView> {
    if !has_function(feature, key) {
        Err(WalletErrorView::MissingSignTransactionFunction)
    } else {
        match feature.supported_transaction_versions {
            None => Err(WalletErrorView::ExpectedValueNotFound("supportedTransactionVersions"@)),
            Some(tokens) => match version_support(tokens@) {
                Ok(support) => Ok(
                    SignTransaction { version, legacy: support.0, version_zero: support.1 },
                ),
                Err(e) => Err(e),
            },
        }
    }
}

impl Default for SignTransaction {
    /// A feature of version `1.0.0` that supports nothing.
    fn default() -> (feature: SignTransaction)
        ensures
            feature.version.numbers() == (1u8, 0u8, 0u8),
            !feature.legacy,
            !feature.version_zero,
    {
        SignTransaction { version: SemverVersion::new(), legacy: false, version_zero: false }
    }
}

/// The request to sign one transaction.
#[derive(Debug, Clone, PartialEq, Eq)]
pub struct SignTransactionRequest {
    /// The handle of the account that is to sign.
    pub account: u64,
    /// The transaction in its wire form.
    pub transaction: Vec<u8>,
    /// The chain on which the transaction is to run, where one is named.
    pub chain: Option<String>,
}

/// The request to sign several transactions with one approval.
#[derive(Debug, Clone, PartialEq, Eq)]
pub struct SignAllTransactionsRequest {
    /// The handle of the account that is to sign.
    pub account: u64,
    /// The transactions in their wire form.
    pub transactions: Vec<Vec<u8>>,
    /// The chain on which the transactions are to run, where one is named.
    pub chain: Option<String>,
}

/// The request to sign a transaction and send it to the network.
#[derive(Debug, Clone, PartialEq, Eq)]
pub struct SignAndSendTransactionRequest {
    /// The handle of the account that is to sign.
    pub account: u64,
    /// The transaction in its wire form.
    pub transaction: Vec<u8>,
    /// The chain on which the transaction is to run.
    pub chain: String,
    /// How the wallet is to send the transaction.
    pub options: SendOptions,
}

/// The chain identifier of an optional cluster.
pub open spec fn chain_of(cluster: Option<SolanaNetworkCluster>) -> Option<Seq<char>> {
    match cluster {
        Some(c) => Some(c.chain_text()),
        None => None,
    }
}

/// The byte sequences of a list of buffers.
pub open spec fn buffers(list: Seq<Vec<u8>>) -> Seq<Seq<u8>> {
    list.map_values(|b: Vec<u8>| b@)
}

/// Computes `chain_of` as a string.
fn chain_text_of(cluster: Option<SolanaNetworkCluster>) -> (r: Option<String>)
    ensures
        crate::text::opt_view(r) == chain_of(cluster),
{
    match cluster {
        Some(c) => Some(c.chain().to_owned()),
        None => None,
    }
}

impl SignTransaction {
    /// Reads the list of supported transaction versions of a feature.
    pub fn get_tx_version_support(feature: &ReflectedFeature) -> (r: WalletResult<(bool, bool)>)
        ensures
            match feature.supported_transaction_versions {
                None => r matches Err(e) && e@ == WalletErrorView::ExpectedValueNotFound(
                    "supportedTransactionVersions"@,
                ),
                Some(tokens) => match version_support(tokens@) {
                    Ok(support) => r == Ok::<(bool, bool), WalletError>(support),
                    Err(e) => r matches Err(x) && x@ == e,
                },
            },
    {
        let tokens = match &feature.supported_transaction_versions {
            Some(tokens) => tokens,
            None => {
                return Err(
                    WalletError::ExpectedValueNotFound("supportedTransactionVersions".to_owned()),
                );
            },
        };
        let mut legacy = false;
        let mut version_zero = false;
        let n: usize = tokens.len();
        let mut i: usize = 0;
        while i < n
            invariant
                feature.supported_transaction_versions == Some(*tokens),
                n == tokens@.len(),
                i <= n,
                forall|j: int| 0 <= j < i ==> is_legacy(tokens@[j]) || is_version_zero(tokens@[j]),
                legacy == (exists|j: int| 0 <= j < i && is_legacy(tokens@[j])),
                version_zero == (exists|j: int| 0 <= j < i && is_version_zero(tokens@[j])),
            decreases n - i,
        {
            let known = match &tokens[i] {
                TransactionVersionToken::Text(text) => {
                    if text_equal(text.as_str(), "legacy") {
                        legacy = true;
                        true
                    } else {
                        false
                    }
                },
                TransactionVersionToken::Integer(number) => {
                    if *number == 0 {
                        version_zero = true;
                        true
                    } else {
                        false
                    }
                },
                TransactionVersionToken::Other => false,
            };
            if !known {
                proof {
                    assert(!is_legacy(tokens@[i as int]) && !is_version_zero(tokens@[i as int]));
                }
                return Err(WalletError::UnsupportedTransactionVersion);
            }
            proof {
                assert(is_legacy(tokens@[i as int]) || is_version_zero(tokens@[i as int]));
                assert(!(is_legacy(tokens@[i as int]) && is_version_zero(tokens@[i as int])));
            }
            i += 1;
        }
        if !legacy {
            return Err(WalletError::LegacyTransactionSupportRequired);
        }
        Ok((legacy, version_zero))
    }

    /// Reads a transaction signing feature whose function is called `key`.
    pub fn new(feature: &ReflectedFeature, version: SemverVersion, key: &str) -> (r: WalletResult<
        SignTransaction,
    >)
        ensures
            match transaction_feature(*feature, version, key@) {
                Ok(f) => r == Ok::<SignTransaction, WalletError>(f),
                Err(e) => r matches Err(x) && x@ == e,
            },
    {
        if !feature_has_function(feature, key) {
            return Err(WalletError::MissingSignTransactionFunction);
        }
        match SignTransaction::get_tx_version_support(feature) {
            Ok((legacy, version_zero)) => Ok(SignTransaction { version, legacy, version_zero }),
            Err(e) => Err(e),
        }
    }

    /// Reads the feature `solana:signTransaction`.
    pub fn new_sign_tx(feature: &ReflectedFeature, version: SemverVersion) -> (r: WalletResult<
        SignTransaction,
    >)
        ensures
            match transaction_feature(*feature, version, "signTransaction"@) {
                Ok(f) => r == Ok::<SignTransaction, WalletError>(f),
                Err(e) => r matches Err(x) && x@ == e,
            },
    {
        SignTransaction::new(feature, version, "signTransaction")
    }

    /// Reads the feature `solana:signAndSendTransaction`.
    pub fn new_sign_and_send_tx(feature: &ReflectedFeature, version: SemverVersion) -> (r:
        WalletResult<SignTransaction>)
        ensures
            match transaction_feature(*feature, version, "signAndSendTransaction"@) {
                Ok(f) => r == Ok::<SignTransaction, WalletError>(f),
                Err(e) => r matches Err(x) && x@ == e,
            },
    {
        SignTransaction::new(feature, version, "signAndSendTransaction")
    }

    /// Reads the feature `solana:signAllTransactions`.
    pub fn new_sign_all_tx(feature: &ReflectedFeature, version: SemverVersion) -> (r: WalletResult<
        SignTransaction,
    >)
        ensures
            match transaction_feature(*feature, version, "signAllTransactions"@) {
                Ok(f) => r == Ok::<SignTransaction, WalletError>(f),
                Err(e) => r matches Err(x) && x@ == e,
            },
    {
        SignTransaction::new(feature, version, "signAllTransactions")
    }

    /// The request that asks the wallet to sign `transaction_bytes` with
    /// `wallet_account`.
    pub fn call_sign_tx(
        &self,
        wallet_account: &WalletAccount,
        transaction_bytes: &[u8],
        cluster: Option<SolanaNetworkCluster>,
    ) -> (request: SignTransactionRequest)
        ensures
            request.account == wallet_account@.handle,
            request.transaction@ == transaction_bytes@,
            crate::text::opt_view(request.chain) == chain_of(cluster),
    {
        SignTransactionRequest {
            account: wallet_account.handle(),
            transaction: slice_to_vec(transaction_bytes),
            chain: chain_text_of(cluster),
        }
    }

    /// The request that asks the wallet to sign all of `transactions`
    /// with `wallet_account`.
    pub fn call_sign_all_tx(
        &self,
        wallet_account: &WalletAccount,
        transactions: &[Vec<u8>],
        cluster: Option<SolanaNetworkCluster>,
    ) -> (request: SignAllTransactionsRequest)
        ensures
            request.account == wallet_account@.handle,
            buffers(request.transactions@) == buffers(transactions@),
            crate::text::opt_view(request.chain) == chain_of(cluster),
    {
        let n: usize = transactions.len();
        let mut copies: Vec<Vec<u8>> = Vec::new();
        let mut i: usize = 0;
        while i < n
            invariant
                n == transactions@.len(),
                i <= n,
                copies@.len() == i,
                forall|j: int| 0 <= j < i ==> copies@[j]@ == transactions@[j]@,
            decreases n - i,
        {
            copies.push(slice_to_vec(transactions[i].as_slice()));
            i += 1;
        }
        proof {
            assert(buffers(copies@) =~= buffers(transactions@));
        }
        SignAllTransactionsRequest {
            account: wallet_account.handle(),
            transactions: copies,
            chain: chain_text_of(cluster),
        }
    }

    /// The request that asks the wallet to sign `transaction_bytes` with
    /// `wallet_account` and to send it to `cluster`.
    pub fn call_sign_and_send_transaction(
        &self,
        wallet_account: &WalletAccount,
        transaction_bytes: &[u8],
        cluster: SolanaNetworkCluster,
        options: SendOptions,
    ) -> (request: SignAndSendTransactionRequest)
        ensures
            request.account == wallet_account@.handle,
            request.transaction@ == transaction_bytes@,
            request.chain@ == cluster.chain_text(),
            request.options == options,
    {
        SignAndSendTransactionRequest {
            account: wallet_account.handle(),
            transaction: slice_to_vec(transaction_bytes),
            chain: cluster.chain().to_owned(),
            options,
        }
    }

    /// Checks what a wallet handed back for a request to sign
    /// `requested` transactions: it must hold at least one signed
    /// transaction, and at least as many as were asked for.
    pub fn signed_transactions(response: Vec<Vec<u8>>, requested: usize) -> (r: WalletResult<
        Vec<Vec<u8>>,
    >)
        ensures
            if response@.len() == 0 || response@.len() < requested {
                r matches Err(e) && e@ == WalletErrorView::ReceivedAnEmptySignedMessagesArray
            } else {
                r == Ok::<Vec<Vec<u8>>, WalletError>(response)
            },
    {
        if response.len() == 0 || response.len() < requested {
            return Err(WalletError::ReceivedAnEmptySignedMessagesArray);
        }
        Ok(response)
    }

    /// Checks what a wallet handed back for a request to sign and send a
    /// transaction: the first entry must be a signature of 64 bytes.
    pub fn sent_transaction_signature(response: &[Vec<u8>]) -> (r: WalletResult<[u8; 64]>)
        ensures
            if response@.len() == 0 {
                r matches Err(e) && e@ == WalletErrorView::SendAndSignTransactionSignatureEmpty
            } else if response@[0]@.len() != 64 {
                r matches Err(e) && e@ == WalletErrorView::Expected64ByteLength
            } else {
                r matches Ok(signature) && signature@ == response@[0]@
            },
    {
        if response.len() == 0 {
            return Err(WalletError::SendAndSignTransactionSignatureEmpty);
        }
        match WalletCommonUtils::to64byte_array(response[0].as_slice()) {
            Ok(signature) => Ok(signature),
            Err(e) => Err(WalletError::from(e)),
        }
    }
}

/// How a wallet is to send a transaction. The options are handed to the
/// wallet as they are.
#[derive(Debug, PartialEq, Eq, Structural, PartialOrd, Ord, Hash, Clone, Copy)]
pub struct SendOptions {
    /// The commitment level of the preflight check.
    pub preflight_commitment: SolanaNetworkCommitment,
    /// Whether the preflight check is left out.
    pub skip_preflight: bool,
    /// How often the wallet may try again.
    pub max_retries: u8,
}

/// The send options as the three members that a wallet reads.
#[derive(Debug, PartialEq, Eq, Clone)]
pub struct SendOptionsObject {
    /// The member `preflightCommitment`.
    pub preflight_commitment: String,
    /// The member `skipPreflight`.
    pub skip_preflight: bool,
    /// The member `maxRetries`.
    pub max_retries: u8,
}

impl Default for SendOptions {
    /// The level `Finalized`, with preflight, without retries.
    fn default() -> (options: SendOptions)
        ensures
            options == (SendOptions {
                preflight_commitment: SolanaNetworkCommitment::Finalized,
                skip_preflight: false,
                max_retries: 0,
            }),
    {
        SendOptions {
            preflight_commitment: SolanaNetworkCommitment::Finalized,
            skip_preflight: false,
            max_retries: 0,
        }
    }
}

impl SendOptions {
    /// The options as the members that a wallet reads.
    pub fn to_object(&self) -> (object: SendOptionsObject)
        ensures
            object.preflight_commitment@ == crate::base::commitment::Commitment::name(
                &self.preflight_commitment,
            ),
            object.skip_preflight == self.skip_preflight,
            object.max_retries == self.max_retries,
    {
        SendOptionsObject {
            preflight_commitment: crate::base::commitment::Commitment::as_str(
                &self.preflight_commitment,
            ).to_owned(),
            skip_preflight: self.skip_preflight,
            max_retries: self.max_retries,
        }
    }
}

} // verus!
