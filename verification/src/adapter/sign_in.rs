//! Signing in: the request to the wallet and the check on what it hands back.

use crate::adapter::errors::WalletError;
use crate::adapter::errors::WalletErrorView;
use crate::adapter::errors::WalletResult;
use crate::adapter::features::SignIn;
use crate::adapter::host::ReflectedAccount;
use crate::adapter::wallet_account::parsed_account;
use crate::adapter::wallet_account::WalletAccount;
use crate::common::account::AccountView;
use crate::common::errors::WalletUtilsError;
use crate::common::signin::parsed;
use crate::common::signin::SignInOutput;
use crate::common::signin::SigninInput;
use crate::common::signin::SigninInputView;
use crate::common::utils::WalletCommonUtils;
use crate::text::string_from_utf8;
use vstd::prelude::*;
use vstd::utf8::decode_utf8;
use vstd::utf8::valid_utf8;

verus! {

/// The request to sign in.
#[derive(Debug, Clone, PartialEq, Eq)]
pub struct SignInRequest {
    /// What the message is to say.
    pub input: SigninInput,
    /// The public key that is expected to sign in.
    pub public_key: [u8; 32],
}

/// One entry of what a wallet hands back for a request to sign in.
#[derive(Debug, Clone, PartialEq, Eq)]
pub struct SignInResponse {
    /// The account that signed in.
    pub account: ReflectedAccount,
    /// The message that the wallet signed, as UTF-8.
    pub signed_message: Vec<u8>,
    /// The signature over that message.
    pub signature: Vec<u8>,
}

/// What a checked answer to a request to sign in holds.
pub struct SignInOutputView {
    pub account: AccountView,
    pub message: Seq<char>,
    pub signature: Seq<u8>,
    pub public_key: Seq<u8>,
}

/// The view of a [`SignInOutput`].
pub open spec fn output_view(output: SignInOutput) -> SignInOutputView {
    SignInOutputView {
        account: output.account@,
        message: output.message@,
        signature: output.signature@,
        public_key: output.public_key@,
    }
}

/// What the answer `response` to the request to sign in with `input`
/// amounts to. The answer must not be empty; its first entry must hold an
/// account that can be read, a message that is UTF-8 and that, read back,
/// has every field as `input` has it, and a signature of 64 bytes.
pub open spec fn checked_sign_in(
    input: SigninInputView,
    public_key: Seq<u8>,
    response: Seq<SignInResponse>,
) -> Result<SignInOutputView, WalletErrorView> {
    if response.len() == 0 {
        Err(WalletErrorView::ReceivedAnEmptySignedMessagesArray)
    } else {
        let first = response[0];
        match parsed_account(first.account) {
            Err(e) => Err(e),
            Ok(account) => if !valid_utf8(first.signed_message@) {
                Err(WalletErrorView::InternalError("the signed message is not UTF-8"@))
            } else {
                let message = decode_utf8(first.signed_message@);
                match parsed(message) {
                    Err(raw) => Err(WalletErrorView::InvalidISO8601Timestamp(raw)),
                    Ok(read) => if read != input {
                        Err(WalletErrorView::MessageResponseMismatch)
                    } else if first.signature@.len() != 64 {
                        Err(WalletErrorView::Expected64ByteLength)
                    } else {
                        Ok(
                            SignInOutputView {
                                account: account.account,
                                message,
                                signature: first.signature@,
                                public_key,
                            },
                        )
                    },
                }
            },
        }
    }
}

/// An answer whose message, read back, differs from the input in any
/// field is refused as a mismatch.
pub proof fn law_tampered_sign_in_is_refused(
    input: SigninInputView,
    public_key: Seq<u8>,
    response: Seq<SignInResponse>,
)
    requires
        response.len() > 0,
        parsed_account(response[0].account) is Ok,
        valid_utf8(response[0].signed_message@),
        parsed(decode_utf8(response[0].signed_message@)) is Ok,
        parsed(decode_utf8(response[0].signed_message@))->Ok_0 != input,
    ensures
        checked_sign_in(input, public_key, response) == Err::<SignInOutputView, WalletErrorView>(
            WalletErrorView::MessageResponseMismatch,
        ),
{
}

impl SignIn {
    /// The request that asks the wallet to sign in with what
    /// `signin_input` says.
    pub fn call_signin(&self, signin_input: &SigninInput, public_key: [u8; 32]) -> (request:
        SignInRequest)
        ensures
            request.input@ == signin_input@,
            request.public_key == public_key,
    {
        SignInRequest { input: signin_input.duplicate(), public_key }
    }

    /// Checks what a wallet handed back for the request to sign in with
    /// `signin_input`.
    pub fn sign_in_output(
        signin_input: &SigninInput,
        public_key: [u8; 32],
        response: &[SignInResponse],
    ) -> (r: WalletResult<SignInOutput>)
        ensures
            match checked_sign_in(signin_input@, public_key@, response@) {
                Ok(v) => r matches Ok(output) && output_view(output) == v,
                Err(e) => r matches Err(x) && x@ == e,
            },
    {
        if response.len() == 0 {
            return Err(WalletError::ReceivedAnEmptySignedMessagesArray);
        }
        let first = &response[0];
        let account = WalletAccount::parse(&first.account)?;
        let message = match string_from_utf8(vstd::slice::slice_to_vec(first.signed_message.as_slice())) {
            Some(text) => text,
            None => {
                return Err(WalletError::InternalError("the signed message is not UTF-8".to_owned()));
            },
        };
        match signin_input.check_eq(message.as_str()) {
            Ok(()) => {},
            Err(e) => {
                return Err(WalletError::from(e));
            },
        }
        let signature = match WalletCommonUtils::to64byte_array(first.signature.as_slice()) {
            Ok(signature) => signature,
            Err(e) => {
                return Err(WalletError::from(e));
            },
        };
        Ok(SignInOutput { account: account.into_data(), message, signature, public_key })
    }
}

} // verus!
