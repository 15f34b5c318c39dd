//! Helpers around addresses, keys and signatures.

use crate::common::errors::WalletUtilsError;
use crate::common::errors::WalletUtilsResult;
use crate::text::chars_of;
use crate::text::string_of;
use crate::time::Timestamp;
use vstd::prelude::*;

verus! {

/// `address` reduced to its first `left` and its last `right` characters
/// with three dots in between.
pub open spec fn shortened(address: Seq<char>, left: int, right: int) -> Seq<char> {
    address.subrange(0, left) + seq!['.', '.', '.'] + address.subrange(
        address.len() - right,
        address.len() as int,
    )
}

/// The helpers of the adapter that need no wallet.
pub struct WalletCommonUtils;

impl WalletCommonUtils {
    /// The address with everything but its first `left` and its last
    /// `right` characters replaced by three dots. An address with fewer
    /// characters than are to be kept is refused.
    pub fn custom_shorten_address_rl(address: &str, left: usize, right: usize) -> (r:
        WalletUtilsResult<String>)
        ensures
            if left + right <= address@.len() {
                r matches Ok(text) && text@ == shortened(address@, left as int, right as int)
            } else {
                r matches Err(e) && e == WalletUtilsError::InvalidBase58Address
            },
    {
        let chars = chars_of(address);
        let n: usize = chars.len();
        if left > n || right > n - left {
            return Err(WalletUtilsError::InvalidBase58Address);
        }
        let mut out: Vec<char> = Vec::new();
        let mut i: usize = 0;
        while i < left
            invariant
                n == chars@.len(),
                left <= n,
                i <= left,
                out@ == chars@.subrange(0, i as int),
            decreases left - i,
        {
            out.push(chars[i]);
            proof {
                assert(out@ =~= chars@.subrange(0, i + 1));
            }
            i += 1;
        }
        out.push('.');
        out.push('.');
        out.push('.');
        let mut j: usize = n - right;
        while j < n
            invariant
                n == chars@.len(),
                right <= n,
                n - right <= j <= n,
                out@ == chars@.subrange(0, left as int) + seq!['.', '.', '.'] + chars@.subrange(
                    n - right,
                    j as int,
                ),
            decreases n - j,
        {
            out.push(chars[j]);
            proof {
                assert(out@ =~= chars@.subrange(0, left as int) + seq!['.', '.', '.']
                    + chars@.subrange(n - right, j + 1));
            }
            j += 1;
        }
        Ok(string_of(out.as_slice()))
    }

    /// The address with everything but its first and its last `take`
    /// characters replaced by three dots.
    pub fn custom_shorten_base58(address: &str, take: usize) -> (r: WalletUtilsResult<String>)
        ensures
            if take + take <= address@.len() {
                r matches Ok(text) && text@ == shortened(address@, take as int, take as int)
            } else {
                r matches Err(e) && e == WalletUtilsError::InvalidBase58Address
            },
    {
        WalletCommonUtils::custom_shorten_address_rl(address, take, take)
    }

    /// The address with everything but its first and its last four
    /// characters replaced by three dots, such as `FXdl...RGd4`.
    pub fn shorten_base58(address: &str) -> (r: WalletUtilsResult<String>)
        ensures
            if 8 <= address@.len() {
                r matches Ok(text) && text@ == shortened(address@, 4, 4)
            } else {
                r matches Err(e) && e == WalletUtilsError::InvalidBase58Address
            },
    {
        WalletCommonUtils::custom_shorten_address_rl(address, 4, 4)
    }

    /// The 32 bytes of `bytes` as an array; any other length is refused.
    pub fn to32byte_array(bytes: &[u8]) -> (r: WalletUtilsResult<[u8; 32]>)
        ensures
            if bytes@.len() == 32 {
                r matches Ok(array) && array@ == bytes@
            } else {
                r matches Err(e) && e == WalletUtilsError::Expected32ByteLength
            },
    {
        if bytes.len() != 32 {
            return Err(WalletUtilsError::Expected32ByteLength);
        }
        let mut array = [0u8; 32];
        let mut i: usize = 0;
        while i < 32
            invariant
                bytes@.len() == 32,
                i <= 32,
                forall|k: int| 0 <= k < i ==> array@[k] == bytes@[k],
            decreases 32 - i,
        {
            array[i] = bytes[i];
            i += 1;
        }
        proof {
            assert(array@ =~= bytes@);
        }
        Ok(array)
    }

    /// The 64 bytes of `bytes` as an array; any other length is refused.
    pub fn to64byte_array(bytes: &[u8]) -> (r: WalletUtilsResult<[u8; 64]>)
        ensures
            if bytes@.len() == 64 {
                r matches Ok(array) && array@ == bytes@
            } else {
                r matches Err(e) && e == WalletUtilsError::Expected64ByteLength
            },
    {
        if bytes.len() != 64 {
            return Err(WalletUtilsError::Expected64ByteLength);
        }
        let mut array = [0u8; 64];
        let mut i: usize = 0;
        while i < 64
            invariant
                bytes@.len() == 64,
                i <= 64,
                forall|k: int| 0 <= k < i ==> array@[k] == bytes@[k],
            decreases 64 - i,
        {
            array[i] = bytes[i];
            i += 1;
        }
        proof {
            assert(array@ =~= bytes@);
        }
        Ok(array)
    }

    /// The instant as RFC 3339 text in UTC with millisecond precision.
    pub fn to_iso860(time: Timestamp) -> (text: String)
        ensures
            text@ == crate::time::rfc3339_millis_text(time@),
    {
        time.to_rfc3339_millis()
    }
}

} // verus!
