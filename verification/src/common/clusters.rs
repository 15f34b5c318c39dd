//! The clusters of the Solana network.

use crate::base::clusters::Cluster;
use crate::text::text_equal;
use vstd::prelude::*;
use vstd::std_specs::convert::FromSpecImpl;

verus! {

/// A cluster of the Solana network.
#[derive(Debug, PartialEq, Eq, Structural, PartialOrd, Ord, Clone, Copy, Hash)]
pub enum SolanaNetworkCluster {
    /// The main network, `https://api.mainnet-beta.solana.com`.
    MainNet,
    /// The test network, `https://api.testnet.solana.com`.
    TestNet,
    /// The development network, `https://api.devnet.solana.com`.
    DevNet,
    /// A validator on the local machine, `http://localhost:8899`.
    LocalNet,
}

/// The cluster that `text` names by its identifier, its chain or its
/// endpoint. Any other text stands for the development network.
pub open spec fn cluster_named(text: Seq<char>) -> SolanaNetworkCluster {
    if text == "mainnet"@ || text == "solana:mainnet"@ || text
        == "https://api.mainnet-beta.solana.com"@ {
        SolanaNetworkCluster::MainNet
    } else if text == "testnet"@ || text == "solana:testnet"@ || text
        == "https://api.testnet.solana.com"@ {
        SolanaNetworkCluster::TestNet
    } else if text == "localnet"@ || text == "solana:localnet"@ || text
        == "http://localhost:8899"@ {
        SolanaNetworkCluster::LocalNet
    } else {
        SolanaNetworkCluster::DevNet
    }
}

impl Default for SolanaNetworkCluster {
    /// The development network.
    fn default() -> (cluster: SolanaNetworkCluster)
        ensures
            cluster == SolanaNetworkCluster::DevNet,
    {
        SolanaNetworkCluster::DevNet
    }
}

impl Cluster for SolanaNetworkCluster {
    open spec fn network_namespace_text(&self) -> Seq<char> {
        "solana"@
    }

    open spec fn chain_text(&self) -> Seq<char> {
        match self {
            SolanaNetworkCluster::MainNet => "solana:mainnet"@,
            SolanaNetworkCluster::TestNet => "solana:testnet"@,
            SolanaNetworkCluster::DevNet => "solana:devnet"@,
            SolanaNetworkCluster::LocalNet => "solana:localnet"@,
        }
    }

    open spec fn identifier_text(&self) -> Seq<char> {
        match self {
            SolanaNetworkCluster::MainNet => "mainnet"@,
            SolanaNetworkCluster::TestNet => "testnet"@,
            SolanaNetworkCluster::DevNet => "devnet"@,
            SolanaNetworkCluster::LocalNet => "localnet"@,
        }
    }

    open spec fn endpoint_text(&self) -> Seq<char> {
        match self {
            SolanaNetworkCluster::MainNet => "https://api.mainnet-beta.solana.com"@,
            SolanaNetworkCluster::TestNet => "https://api.testnet.solana.com"@,
            SolanaNetworkCluster::DevNet => "https://api.devnet.solana.com"@,
            SolanaNetworkCluster::LocalNet => "http://localhost:8899"@,
        }
    }

    fn network_namespace(&self) -> (r: &str) {
        "solana"
    }

    fn chains(&self) -> (r: [&str; 4])
        ensures
            r@.len() == 4,
            r@[0]@ == SolanaNetworkCluster::MainNet.chain_text(),
            r@[1]@ == SolanaNetworkCluster::TestNet.chain_text(),
            r@[2]@ == SolanaNetworkCluster::DevNet.chain_text(),
            r@[3]@ == SolanaNetworkCluster::LocalNet.chain_text(),
    {
        ["solana:mainnet", "solana:testnet", "solana:devnet", "solana:localnet"]
    }

    fn identifier(&self) -> (r: &str) {
        match self {
            SolanaNetworkCluster::MainNet => "mainnet",
            SolanaNetworkCluster::TestNet => "testnet",
            SolanaNetworkCluster::DevNet => "devnet",
            SolanaNetworkCluster::LocalNet => "localnet",
        }
    }

    fn chain(&self) -> (r: &str) {
        match self {
            SolanaNetworkCluster::MainNet => "solana:mainnet",
            SolanaNetworkCluster::TestNet => "solana:testnet",
            SolanaNetworkCluster::DevNet => "solana:devnet",
            SolanaNetworkCluster::LocalNet => "solana:localnet",
        }
    }

    fn endpoint(&self) -> (r: &str) {
        match self {
            SolanaNetworkCluster::MainNet => "https://api.mainnet-beta.solana.com",
            SolanaNetworkCluster::TestNet => "https://api.testnet.solana.com",
            SolanaNetworkCluster::DevNet => "https://api.devnet.solana.com",
            SolanaNetworkCluster::LocalNet => "http://localhost:8899",
        }
    }
}

impl SolanaNetworkCluster {
    /// Whether `text` is the identifier, the chain or the endpoint of `self`.
    fn is_named(&self, text: &str) -> (r: bool)
        ensures
            r == (text@ == self.identifier_text() || text@ == self.chain_text() || text@
                == self.endpoint_text()),
    {
        text_equal(text, self.identifier()) || text_equal(text, self.chain()) || text_equal(
            text,
            self.endpoint(),
        )
    }

    /// The cluster that `value` names; the development network where it
    /// names none.
    pub fn from_name(value: &str) -> (cluster: SolanaNetworkCluster)
        ensures
            cluster == cluster_named(value@),
    {
        if SolanaNetworkCluster::MainNet.is_named(value) {
            SolanaNetworkCluster::MainNet
        } else if SolanaNetworkCluster::TestNet.is_named(value) {
            SolanaNetworkCluster::TestNet
        } else if SolanaNetworkCluster::LocalNet.is_named(value) {
            SolanaNetworkCluster::LocalNet
        } else {
            SolanaNetworkCluster::DevNet
        }
    }

    /// The short name of the cluster, as `Display` would write it.
    pub fn to_text(&self) -> (r: String)
        ensures
            r@ == self.identifier_text(),
    {
        self.identifier().to_owned()
    }
}

impl<'a> From<&'a str> for SolanaNetworkCluster {
    fn from(value: &'a str) -> (cluster: SolanaNetworkCluster) {
        SolanaNetworkCluster::from_name(value)
    }
}

impl<'a> FromSpecImpl<&'a str> for SolanaNetworkCluster {
    open spec fn obeys_from_spec() -> bool {
        true
    }

    open spec fn from_spec(value: &'a str) -> SolanaNetworkCluster {
        cluster_named(value@)
    }
}

} // verus!
