//! What can go wrong in the adapter.

use crate::common::errors::WalletUtilsError;
use vstd::prelude::*;
use vstd::std_specs::convert::FromSpecImpl;

verus! {

/// An error of the adapter.
#[derive(Debug, PartialEq, Eq, PartialOrd, Ord, Clone, Hash)]
pub enum WalletError {
    /// An event could not be handed to the channel of wallet events.
    ChannelError,
    /// The host threw an error; its name, message and stack are kept.
    JsError {
        /// The name of the error.
        name: String,
        /// The message of the error.
        message: String,
        /// The trace of calls that led to the error.
        stack: String,
    },
    /// A host value did not have the type that was expected.
    InternalError(String),
    /// A value of `undefined` or `null` was met.
    ValueNotFound,
    /// The named value was expected and is missing.
    ExpectedValueNotFound(String),
    /// The browser window cannot be reached.
    MissingAccessToBrowserWindow,
    /// The browser document cannot be reached.
    MissingAccessToBrowserDocument,
    /// The text names no commitment level.
    UnsupportedCommitment(String),
    /// The version of the wallet is not made of three numbers.
    InvalidWalletVersion(String),
    /// A number of the version does not fit into a byte.
    InvalidSemVerNumber(String),
    /// The value does not have 32 bytes.
    Expected32ByteLength,
    /// The value does not have 64 bytes.
    Expected64ByteLength,
    /// A feature does not tell its version.
    VersionNotFound,
    /// The feature belongs to the `standard` or `solana` namespace and is not known.
    UnsupportedWalletFeature(String),
    /// A transaction version other than legacy and zero was met.
    UnsupportedTransactionVersion,
    /// The wallet does not sign legacy transactions.
    LegacyTransactionSupportRequired,
    /// The chain is none of the four Solana chains.
    UnsupportedChain(String),
    /// The connect feature has no `connect` function.
    MissingConnectFunction,
    /// No wallet is connected, or none is registered under the name.
    WalletNotFound,
    /// No account is connected.
    AccountNotFound,
    /// The wallet refused to connect.
    WalletConnectError(String),
    /// The wallet connected without handing out an account.
    ConnectHasNoAccounts,
    /// The disconnect feature has no `disconnect` function.
    MissingDisconnectFunction,
    /// The named wallet has no `accounts` function.
    MissingGetAccountsFunction(String),
    /// The wallet refused to disconnect.
    WalletDisconnectError(String),
    /// Registering for the events of the wallet failed.
    StandardEventsError(String),
    /// The events feature has no `on` function.
    MissingStandardEventsFunction,
    /// The sign-in feature has no `signIn` function.
    MissingSignInFunction,
    /// The expiration time lies before the time of issue.
    ExpiryTimeEarlierThanIssuedTime,
    /// The not-before time lies before the time of issue.
    NotBeforeTimeEarlierThanIssuedTime,
    /// The not-before time lies after the expiration time.
    NotBeforeTimeLaterThanExpirationTime,
    /// The expiration time lies before the current time.
    ExpirationTimeIsInThePast,
    /// The not-before time lies before the current time.
    NotBeforeTimeIsInThePast,
    /// The text is no Base58 address.
    InvalidBase58Address,
    /// The nonce has fewer than 8 bytes.
    NonceMustBeAtLeast8Characters,
    /// The text is no RFC 3339 timestamp.
    InvalidISO8601Timestamp(String),
    /// The sign-in message that the wallet signed is not the one that was asked for.
    MessageResponseMismatch,
    /// The signature does not fit the message and the public key.
    InvalidSignature,
    /// The bytes are no Ed25519 signature.
    InvalidEd25519SignatureBytes,
    /// The bytes are no Ed25519 public key.
    InvalidEd25519PublicKeyBytes,
    /// The message signing feature has no `signMessage` function.
    MissingSignMessageFunction,
    /// The message that the wallet signed is not the message that was sent.
    SignedMessageMismatch,
    /// The wallet answered with an empty list.
    ReceivedAnEmptySignedMessagesArray,
    /// The transaction signing feature has no function to call.
    MissingSignTransactionFunction,
    /// The wallet cannot sign several transactions at once.
    MissingSignAllTransactionsFunction,
    /// The wallet sent the transaction without handing back a signature.
    SendAndSignTransactionSignatureEmpty,
    /// Adding a span to the time of issue left the range of timestamps.
    SystemTimeCheckedAddOverflow,
    /// An operation outside the adapter failed; the text says how.
    Op(String),
}

/// A [`WalletError`] with its texts as character sequences.
pub enum WalletErrorView {
    ChannelError,
    JsError { name: Seq<char>, message: Seq<char>, stack: Seq<char> },
    InternalError(Seq<char>),
    ValueNotFound,
    ExpectedValueNotFound(Seq<char>),
    MissingAccessToBrowserWindow,
    MissingAccessToBrowserDocument,
    UnsupportedCommitment(Seq<char>),
    InvalidWalletVersion(Seq<char>),
    InvalidSemVerNumber(Seq<char>),
    Expected32ByteLength,
    Expected64ByteLength,
    VersionNotFound,
    UnsupportedWalletFeature(Seq<char>),
    UnsupportedTransactionVersion,
    LegacyTransactionSupportRequired,
    UnsupportedChain(Seq<char>),
    MissingConnectFunction,
    WalletNotFound,
    AccountNotFound,
    WalletConnectError(Seq<char>),
    ConnectHasNoAccounts,
    MissingDisconnectFunction,
    MissingGetAccountsFunction(Seq<char>),
    WalletDisconnectError(Seq<char>),
    StandardEventsError(Seq<char>),
    MissingStandardEventsFunction,
    MissingSignInFunction,
    ExpiryTimeEarlierThanIssuedTime,
    NotBeforeTimeEarlierThanIssuedTime,
    NotBeforeTimeLaterThanExpirationTime,
    ExpirationTimeIsInThePast,
    NotBeforeTimeIsInThePast,
    InvalidBase58Address,
    NonceMustBeAtLeast8Characters,
    InvalidISO8601Timestamp(Seq<char>),
    MessageResponseMismatch,
    InvalidSignature,
    InvalidEd25519SignatureBytes,
    InvalidEd25519PublicKeyBytes,
    MissingSignMessageFunction,
    SignedMessageMismatch,
    ReceivedAnEmptySignedMessagesArray,
    MissingSignTransactionFunction,
    MissingSignAllTransactionsFunction,
    SendAndSignTransactionSignatureEmpty,
    SystemTimeCheckedAddOverflow,
    Op(Seq<char>),
}

impl View for WalletError {
    type V = WalletErrorView;

    open spec fn view(&self) -> WalletErrorView {
        match self {
            WalletError::ChannelError => WalletErrorView::ChannelError,
            WalletError::JsError { name, message, stack } => WalletErrorView::JsError {
                name: name@,
                message: message@,
                stack: stack@,
            },
            WalletError::InternalError(text) => WalletErrorView::InternalError(text@),
            WalletError::ValueNotFound => WalletErrorView::ValueNotFound,
            WalletError::ExpectedValueNotFound(text) => WalletErrorView::ExpectedValueNotFound(text@),
            WalletError::MissingAccessToBrowserWindow => WalletErrorView::MissingAccessToBrowserWindow,
            WalletError::MissingAccessToBrowserDocument => WalletErrorView::MissingAccessToBrowserDocument,
            WalletError::UnsupportedCommitment(text) => WalletErrorView::UnsupportedCommitment(text@),
            WalletError::InvalidWalletVersion(text) => WalletErrorView::InvalidWalletVersion(text@),
            WalletError::InvalidSemVerNumber(text) => WalletErrorView::InvalidSemVerNumber(text@),
            WalletError::Expected32ByteLength => WalletErrorView::Expected32ByteLength,
            WalletError::Expected64ByteLength => WalletErrorView::Expected64ByteLength,
            WalletError::VersionNotFound => WalletErrorView::VersionNotFound,
            WalletError::UnsupportedWalletFeature(text) => WalletErrorView::UnsupportedWalletFeature(text@),
            WalletError::UnsupportedTransactionVersion => WalletErrorView::UnsupportedTransactionVersion,
            WalletError::LegacyTransactionSupportRequired => WalletErrorView::LegacyTransactionSupportRequired,
            WalletError::UnsupportedChain(text) => WalletErrorView::UnsupportedChain(text@),
            WalletError::MissingConnectFunction => WalletErrorView::MissingConnectFunction,
            WalletError::WalletNotFound => WalletErrorView::WalletNotFound,
            WalletError::AccountNotFound => WalletErrorView::AccountNotFound,
            WalletError::WalletConnectError(text) => WalletErrorView::WalletConnectError(text@),
            WalletError::ConnectHasNoAccounts => WalletErrorView::ConnectHasNoAccounts,
            WalletError::MissingDisconnectFunction => WalletErrorView::MissingDisconnectFunction,
            WalletError::MissingGetAccountsFunction(text) => WalletErrorView::MissingGetAccountsFunction(text@),
            WalletError::WalletDisconnectError(text) => WalletErrorView::WalletDisconnectError(text@),
            WalletError::StandardEventsError(text) => WalletErrorView::StandardEventsError(text@),
            WalletError::MissingStandardEventsFunction => WalletErrorView::MissingStandardEventsFunction,
            WalletError::MissingSignInFunction => WalletErrorView::MissingSignInFunction,
            WalletError::ExpiryTimeEarlierThanIssuedTime => WalletErrorView::ExpiryTimeEarlierThanIssuedTime,
            WalletError::NotBeforeTimeEarlierThanIssuedTime => WalletErrorView::NotBeforeTimeEarlierThanIssuedTime,
            WalletError::NotBeforeTimeLaterThanExpirationTime => WalletErrorView::NotBeforeTimeLaterThanExpirationTime,
            WalletError::ExpirationTimeIsInThePast => WalletErrorView::ExpirationTimeIsInThePast,
            WalletError::NotBeforeTimeIsInThePast => WalletErrorView::NotBeforeTimeIsInThePast,
            WalletError::InvalidBase58Address => WalletErrorView::InvalidBase58Address,
            WalletError::NonceMustBeAtLeast8Characters => WalletErrorView::NonceMustBeAtLeast8Characters,
            WalletError::InvalidISO8601Timestamp(text) => WalletErrorView::InvalidISO8601Timestamp(text@),
            WalletError::MessageResponseMismatch => WalletErrorView::MessageResponseMismatch,
            WalletError::InvalidSignature => WalletErrorView::InvalidSignature,
            WalletError::InvalidEd25519SignatureBytes => WalletErrorView::InvalidEd25519SignatureBytes,
            WalletError::InvalidEd25519PublicKeyBytes => WalletErrorView::InvalidEd25519PublicKeyBytes,
            WalletError::MissingSignMessageFunction => WalletErrorView::MissingSignMessageFunction,
            WalletError::SignedMessageMismatch => WalletErrorView::SignedMessageMismatch,
            WalletError::ReceivedAnEmptySignedMessagesArray => WalletErrorView::ReceivedAnEmptySignedMessagesArray,
            WalletError::MissingSignTransactionFunction => WalletErrorView::MissingSignTransactionFunction,
            WalletError::MissingSignAllTransactionsFunction => WalletErrorView::MissingSignAllTransactionsFunction,
            WalletError::SendAndSignTransactionSignatureEmpty => WalletErrorView::SendAndSignTransactionSignatureEmpty,
            WalletError::SystemTimeCheckedAddOverflow => WalletErrorView::SystemTimeCheckedAddOverflow,
            WalletError::Op(text) => WalletErrorView::Op(text@),
        }
    }
}

/// The result of an operation of the adapter.
pub type WalletResult<T> = Result<T, WalletError>;

/// The error of the adapter that stands for an error of the operations on
/// plain wallet data: the variant of the same name.
pub open spec fn from_utils_error(value: WalletUtilsError) -> WalletError {
    match value {
        WalletUtilsError::SystemTimeCheckedAddOverflow => WalletError::SystemTimeCheckedAddOverflow,
        WalletUtilsError::ExpiryTimeEarlierThanIssuedTime => {
            WalletError::ExpiryTimeEarlierThanIssuedTime
        },
        WalletUtilsError::ExpirationTimeIsInThePast => WalletError::ExpirationTimeIsInThePast,
        WalletUtilsError::NotBeforeTimeEarlierThanIssuedTime => {
            WalletError::NotBeforeTimeEarlierThanIssuedTime
        },
        WalletUtilsError::NotBeforeTimeIsInThePast => WalletError::NotBeforeTimeIsInThePast,
        WalletUtilsError::NotBeforeTimeLaterThanExpirationTime => {
            WalletError::NotBeforeTimeLaterThanExpirationTime
        },
        WalletUtilsError::InvalidISO8601Timestamp(text) => WalletError::InvalidISO8601Timestamp(
            text,
        ),
        WalletUtilsError::InvalidBase58Address => WalletError::InvalidBase58Address,
        WalletUtilsError::InvalidEd25519PublicKeyBytes => WalletError::InvalidEd25519PublicKeyBytes,
        WalletUtilsError::InvalidSignature => WalletError::InvalidSignature,
        WalletUtilsError::Expected64ByteLength => WalletError::Expected64ByteLength,
        WalletUtilsError::Expected32ByteLength => WalletError::Expected32ByteLength,
        WalletUtilsError::NonceMustBeAtLeast8Characters => {
            WalletError::NonceMustBeAtLeast8Characters
        },
        WalletUtilsError::MessageResponseMismatch => WalletError::MessageResponseMismatch,
    }
}

impl From<WalletUtilsError> for WalletError {
    fn from(value: WalletUtilsError) -> (error: WalletError) {
        match value {
            WalletUtilsError::SystemTimeCheckedAddOverflow => {
                WalletError::SystemTimeCheckedAddOverflow
            },
            WalletUtilsError::ExpiryTimeEarlierThanIssuedTime => {
                WalletError::ExpiryTimeEarlierThanIssuedTime
            },
            WalletUtilsError::ExpirationTimeIsInThePast => WalletError::ExpirationTimeIsInThePast,
            WalletUtilsError::NotBeforeTimeEarlierThanIssuedTime => {
                WalletError::NotBeforeTimeEarlierThanIssuedTime
            },
            WalletUtilsError::NotBeforeTimeIsInThePast => WalletError::NotBeforeTimeIsInThePast,
            WalletUtilsError::NotBeforeTimeLaterThanExpirationTime => {
                WalletError::NotBeforeTimeLaterThanExpirationTime
            },
            WalletUtilsError::InvalidISO8601Timestamp(text) => {
                WalletError::InvalidISO8601Timestamp(text)
            },
            WalletUtilsError::InvalidBase58Address => WalletError::InvalidBase58Address,
            WalletUtilsError::InvalidEd25519PublicKeyBytes => {
                WalletError::InvalidEd25519PublicKeyBytes
            },
            WalletUtilsError::InvalidSignature => WalletError::InvalidSignature,
            WalletUtilsError::Expected64ByteLength => WalletError::Expected64ByteLength,
            WalletUtilsError::Expected32ByteLength => WalletError::Expected32ByteLength,
            WalletUtilsError::NonceMustBeAtLeast8Characters => {
                WalletError::NonceMustBeAtLeast8Characters
            },
            WalletUtilsError::MessageResponseMismatch => WalletError::MessageResponseMismatch,
        }
    }
}

impl FromSpecImpl<WalletUtilsError> for WalletError {
    open spec fn obeys_from_spec() -> bool {
        true
    }

    open spec fn from_spec(value: WalletUtilsError) -> WalletError {
        from_utils_error(value)
    }
}

} // verus!
