//! What can go wrong in the operations on plain wallet data.

use vstd::prelude::*;

verus! {

/// An error of the sign-in input with typed fields and of the helpers
/// around addresses, keys and signatures.
#[derive(Debug, PartialEq, Eq, PartialOrd, Ord, Hash, Clone)]
pub enum WalletUtilsError {
    /// Adding a span to the time of issue left the range of timestamps.
    SystemTimeCheckedAddOverflow,
    /// The expiration time lies before the time of issue.
    ExpiryTimeEarlierThanIssuedTime,
    /// The expiration time lies before the current time.
    ExpirationTimeIsInThePast,
    /// The not-before time lies before the time of issue.
    NotBeforeTimeEarlierThanIssuedTime,
    /// The not-before time lies before the current time.
    NotBeforeTimeIsInThePast,
    /// The not-before time lies after the expiration time.
    NotBeforeTimeLaterThanExpirationTime,
    /// The text is no RFC 3339 timestamp.
    InvalidISO8601Timestamp(String),
    /// The text is no Base58 address.
    InvalidBase58Address,
    /// The bytes are no Ed25519 public key.
    InvalidEd25519PublicKeyBytes,
    /// The signature does not fit the message and the public key.
    InvalidSignature,
    /// The value does not have 64 bytes.
    Expected64ByteLength,
    /// The value does not have 32 bytes.
    Expected32ByteLength,
    /// The nonce has fewer than 8 bytes.
    NonceMustBeAtLeast8Characters,
    /// The message that the wallet signed is not the one that was sent.
    MessageResponseMismatch,
}

/// The result of an operation on plain wallet data.
pub type WalletUtilsResult<T> = Result<T, WalletUtilsError>;

} // verus!
