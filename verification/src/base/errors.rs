//! What can go wrong while a sign-in input is built or read.

use vstd::prelude::*;

verus! {

/// An error of the sign-in input whose fields are kept as text. Each
/// variant carries the values that were at fault.
#[derive(Debug, PartialEq, Eq, PartialOrd, Ord, Hash, Clone)]
pub enum WalletBaseError {
    /// The address is no Base58 text that fits into 32 bytes.
    InvalidBase58Address(String),
    /// The address decodes to this many bytes instead of 32.
    InvalidEd25519PublicKeyLen(u8),
    /// The nonce has this many bytes, fewer than 8.
    NonceMustBeAtLeast8Characters(u8),
    /// The text is no RFC 3339 timestamp.
    InvalidISO8601Timestamp(String),
    /// Adding a span to the time of issue left the range of timestamps.
    SystemTimeCheckedAddOverflow,
    /// The expiration time lies before the time of issue.
    ExpiryTimeEarlierThanIssuedTime {
        /// The time of issue.
        issued: String,
        /// The expiration time that was refused.
        expiry: String,
    },
    /// The expiration time lies before the current time.
    ExpirationTimeIsInThePast {
        /// The current time.
        now: String,
        /// The expiration time that was refused.
        expiry: String,
    },
    /// The not-before time lies before the time of issue.
    NotBeforeTimeEarlierThanIssuedTime {
        /// The time of issue.
        issued_at: String,
        /// The not-before time that was refused.
        not_before: String,
    },
    /// The not-before time lies before the current time.
    NotBeforeTimeIsInThePast {
        /// The current time.
        now: String,
        /// The not-before time that was refused.
        not_before: String,
    },
    /// The not-before time lies after the expiration time.
    NotBeforeTimeLaterThanExpirationTime {
        /// The not-before time that was refused.
        not_before: String,
        /// The expiration time.
        expiry: String,
    },
    /// The message that the wallet signed is not the one that was sent.
    MessageResponseMismatch,
}

/// A [`WalletBaseError`] with its texts as character sequences.
pub enum BaseErrorView {
    InvalidBase58Address(Seq<char>),
    InvalidEd25519PublicKeyLen(u8),
    NonceMustBeAtLeast8Characters(u8),
    InvalidISO8601Timestamp(Seq<char>),
    SystemTimeCheckedAddOverflow,
    ExpiryTimeEarlierThanIssuedTime { issued: Seq<char>, expiry: Seq<char> },
    ExpirationTimeIsInThePast { now: Seq<char>, expiry: Seq<char> },
    NotBeforeTimeEarlierThanIssuedTime { issued_at: Seq<char>, not_before: Seq<char> },
    NotBeforeTimeIsInThePast { now: Seq<char>, not_before: Seq<char> },
    NotBeforeTimeLaterThanExpirationTime { not_before: Seq<char>, expiry: Seq<char> },
    MessageResponseMismatch,
}

impl View for WalletBaseError {
    type V = BaseErrorView;

    open spec fn view(&self) -> BaseErrorView {
        match self {
            WalletBaseError::InvalidBase58Address(a) => BaseErrorView::InvalidBase58Address(a@),
            WalletBaseError::InvalidEd25519PublicKeyLen(n) => {
                BaseErrorView::InvalidEd25519PublicKeyLen(*n)
            },
            WalletBaseError::NonceMustBeAtLeast8Characters(n) => {
                BaseErrorView::NonceMustBeAtLeast8Characters(*n)
            },
            WalletBaseError::InvalidISO8601Timestamp(t) => BaseErrorView::InvalidISO8601Timestamp(
                t@,
            ),
            WalletBaseError::SystemTimeCheckedAddOverflow => {
                BaseErrorView::SystemTimeCheckedAddOverflow
            },
            WalletBaseError::ExpiryTimeEarlierThanIssuedTime { issued, expiry } => {
                BaseErrorView::ExpiryTimeEarlierThanIssuedTime { issued: issued@, expiry: expiry@ }
            },
            WalletBaseError::ExpirationTimeIsInThePast { now, expiry } => {
                BaseErrorView::ExpirationTimeIsInThePast { now: now@, expiry: expiry@ }
            },
            WalletBaseError::NotBeforeTimeEarlierThanIssuedTime { issued_at, not_before } => {
                BaseErrorView::NotBeforeTimeEarlierThanIssuedTime {
                    issued_at: issued_at@,
                    not_before: not_before@,
                }
            },
            WalletBaseError::NotBeforeTimeIsInThePast { now, not_before } => {
                BaseErrorView::NotBeforeTimeIsInThePast { now: now@, not_before: not_before@ }
            },
            WalletBaseError::NotBeforeTimeLaterThanExpirationTime { not_before, expiry } => {
                BaseErrorView::NotBeforeTimeLaterThanExpirationTime {
                    not_before: not_before@,
                    expiry: expiry@,
                }
            },
            WalletBaseError::MessageResponseMismatch => BaseErrorView::MessageResponseMismatch,
        }
    }
}

/// The result of an operation on the sign-in input whose fields are kept as text.
pub type WalletBaseResult<T> = Result<T, WalletBaseError>;

} // verus!
