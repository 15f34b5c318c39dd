//! What a network cluster has to tell about itself.

use core::fmt::Debug;
use core::hash::Hash;
use vstd::prelude::*;

verus! {

/// A network cluster: a named environment of a blockchain network.
pub trait Cluster: Debug + PartialEq + Eq + PartialOrd + Ord + Hash + Clone + Copy {
    /// The namespace of the network, such as `solana`.
    spec fn network_namespace_text(&self) -> Seq<char>;

    /// The chain identifier, namespace and cluster joined by a colon.
    spec fn chain_text(&self) -> Seq<char>;

    /// The short name of the cluster.
    spec fn identifier_text(&self) -> Seq<char>;

    /// The address of the cluster's RPC endpoint.
    spec fn endpoint_text(&self) -> Seq<char>;

    /// The namespace of the network, such as `solana`.
    fn network_namespace(&self) -> (r: &str)
        ensures
            r@ == self.network_namespace_text(),
    ;

    /// The chain identifier, such as `solana:mainnet`.
    fn chain(&self) -> (r: &str)
        ensures
            r@ == self.chain_text(),
    ;

    /// The short name of the cluster, such as `mainnet`.
    fn identifier(&self) -> (r: &str)
        ensures
            r@ == self.identifier_text(),
    ;

    /// The address of the cluster's RPC endpoint.
    fn endpoint(&self) -> (r: &str)
        ensures
            r@ == self.endpoint_text(),
    ;

    /// The chain identifiers of the four clusters of the network.
    fn chains(&self) -> [&str; 4];
}

/// Which clusters something supports. Everything is supported unless an
/// implementation says otherwise.
pub trait ClusterEnabled {
    /// Whether mainnet is supported. It is, unless an implementation says
    /// otherwise.
    fn mainnet(&self) -> (supported: bool)
        default_ensures
            supported,
    {
        true
    }

    /// Whether testnet is supported. It is, unless an implementation says
    /// otherwise.
    fn testnet(&self) -> (supported: bool)
        default_ensures
            supported,
    {
        true
    }

    /// Whether devnet is supported. It is, unless an implementation says
    /// otherwise.
    fn devnet(&self) -> (supported: bool)
        default_ensures
            supported,
    {
        true
    }

    /// Whether localnet is supported. It is, unless an implementation says
    /// otherwise.
    fn localnet(&self) -> (supported: bool)
        default_ensures
            supported,
    {
        true
    }
}

} // verus!
