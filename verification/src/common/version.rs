//! The version of the wallet standard that the adapter follows.

use crate::base::version::SemverVersion;
use crate::base::version::Version;
use vstd::prelude::*;

verus! {

/// Reports the version of the wallet standard that the Solana adapter
/// follows, which is `1.0.0`.
#[derive(Debug, PartialEq, Eq, Structural, PartialOrd, Ord, Hash, Clone, Copy)]
pub struct SolanaWalletAdapterVersion;

impl Version for SolanaWalletAdapterVersion {

}

impl SolanaWalletAdapterVersion {
    /// The version as text, as `Display` would write it.
    pub fn to_text(&self) -> (r: String)
        ensures
            r@ == seq!['1', '.', '0', '.', '0'],
    {
        let version = self.version();
        let text = version.stringify_version();
        proof {
            assert(version.text() =~= seq!['1', '.', '0', '.', '0']);
        }
        text
    }
}

} // verus!
