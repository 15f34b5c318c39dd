//! Which clusters a wallet or an account supports.

use vstd::prelude::*;

verus! {

/// One flag for each cluster of the Solana network.
#[derive(Debug, PartialEq, Eq, Structural, PartialOrd, Ord, Clone, Copy, Hash)]
pub struct ChainSupport {
    /// The main network.
    pub mainnet: bool,
    /// The development network.
    pub devnet: bool,
    /// The test network.
    pub testnet: bool,
    /// A validator on the local machine.
    pub localnet: bool,
}

/// The record in which no cluster is supported.
pub open spec fn no_chains() -> ChainSupport {
    ChainSupport { mainnet: false, devnet: false, testnet: false, localnet: false }
}

impl Default for ChainSupport {
    /// The record in which no cluster is supported.
    fn default() -> (support: ChainSupport)
        ensures
            support == no_chains(),
    {
        ChainSupport { mainnet: false, devnet: false, testnet: false, localnet: false }
    }
}

} // verus!
