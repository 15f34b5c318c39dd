//! Signing a message: the request to the wallet and the check on what it
//! hands back.

use crate::adapter::errors::WalletError;
use crate::adapter::errors::WalletErrorView;
use crate::adapter::errors::WalletResult;
use crate::adapter::features::SignMessage;
use crate::adapter::wallet_account::WalletAccount;
use crate::common::utils::WalletCommonUtils;
use crate::text::bytes_equal;
use vstd::prelude::*;
use vstd::slice::slice_to_vec;

verus! {

/// The request to sign a message.
#[derive(Debug, Clone, PartialEq, Eq)]
pub struct SignMessageRequest {
    /// The handle of the account that is to sign.
    pub account: u64,
    /// The message, which is UTF-8 text.
    pub message: Vec<u8>,
}

/// One entry of what a wallet hands back for a request to sign a message.
#[derive(Debug, Clone, PartialEq, Eq)]
pub struct SignedMessageResponse {
    /// The message that the wallet signed.
    pub signed_message: Vec<u8>,
    /// The signature over that message.
    pub signature: Vec<u8>,
}

/// A message with the signature that a wallet made over it.
#[derive(Debug, Clone, PartialEq, Eq, PartialOrd, Ord, Hash)]
pub struct SignedMessageOutput {
    message: Vec<u8>,
    public_key: [u8; 32],
    signature: [u8; 64],
}

/// What a checked answer to a request to sign a message holds.
pub struct SignedMessageView {
    pub message: Seq<u8>,
    pub public_key: Seq<u8>,
    pub signature: Seq<u8>,
}

impl View for SignedMessageOutput {
    type V = SignedMessageView;

    closed spec fn view(&self) -> SignedMessageView {
        SignedMessageView {
            message: self.message@,
            public_key: self.public_key@,
            signature: self.signature@,
        }
    }
}

/// What the answer `response` to the request to sign `message` with an
/// account of the key `public_key` amounts to. The answer must not be
/// empty; its first entry must hold the very message that was sent, and
/// a signature of 64 bytes.
pub open spec fn checked_answer(
    message: Seq<u8>,
    public_key: Seq<u8>,
    response: Seq<SignedMessageResponse>,
) -> Result<SignedMessageView, WalletErrorView> {
    if response.len() == 0 {
        Err(WalletErrorView::ReceivedAnEmptySignedMessagesArray)
    } else if response[0].signed_message@ != message {
        Err(WalletErrorView::SignedMessageMismatch)
    } else if response[0].signature@.len() != 64 {
        Err(WalletErrorView::Expected64ByteLength)
    } else {
        Ok(SignedMessageView { message, public_key, signature: response[0].signature@ })
    }
}

/// An answer whose signed message differs from the message that was sent
/// is refused as a mismatch, whatever its signature is.
pub proof fn law_changed_message_is_refused(
    message: Seq<u8>,
    public_key: Seq<u8>,
    response: Seq<SignedMessageResponse>,
)
    requires
        response.len() > 0,
        response[0].signed_message@ != message,
    ensures
        checked_answer(message, public_key, response) == Err::<
            SignedMessageView,
            WalletErrorView,
        >(WalletErrorView::SignedMessageMismatch),
{
}

impl SignedMessageOutput {
    /// The message that was signed.
    pub fn message(&self) -> (r: &[u8])
        ensures
            r@ == self@.message,
    {
        self.message.as_slice()
    }

    /// The public key of the account that signed.
    pub fn public_key(&self) -> (r: [u8; 32])
        ensures
            r@ == self@.public_key,
    {
        self.public_key
    }

    /// The signature over the message.
    pub fn signature(&self) -> (r: [u8; 64])
        ensures
            r@ == self@.signature,
    {
        self.signature
    }
}

impl SignMessage {
    /// The request that asks the wallet to sign `message` with `account`.
    pub fn call_sign_message(&self, account: &WalletAccount, message: &[u8]) -> (request:
        SignMessageRequest)
        ensures
            request.account == account@.handle,
            request.message@ == message@,
    {
        SignMessageRequest { account: account.handle(), message: slice_to_vec(message) }
    }

    /// Checks what a wallet handed back for the request to sign `message`
    /// with `account`.
    pub fn signed_message_output(
        message: &[u8],
        account: &WalletAccount,
        response: &[SignedMessageResponse],
    ) -> (r: WalletResult<SignedMessageOutput>)
        ensures
            match checked_answer(message@, account@.account.public_key, response@) {
                Ok(v) => r matches Ok(output) && output@ == v,
                Err(e) => r matches Err(x) && x@ == e,
            },
    {
        if response.len() == 0 {
            return Err(WalletError::ReceivedAnEmptySignedMessagesArray);
        }
        let first = &response[0];
        if !bytes_equal(first.signed_message.as_slice(), message) {
            return Err(WalletError::SignedMessageMismatch);
        }
        let signature = match WalletCommonUtils::to64byte_array(first.signature.as_slice()) {
            Ok(signature) => signature,
            Err(e) => {
                return Err(WalletError::from(e));
            },
        };
        Ok(
            SignedMessageOutput {
                message: slice_to_vec(message),
                public_key: account.public_key(),
                signature,
            },
        )
    }
}

} // verus!
