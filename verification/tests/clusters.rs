use wallet_adapter::base::clusters::Cluster;
use wallet_adapter::base::clusters::ClusterEnabled;
use wallet_adapter::base::commitment::Commitment;
use wallet_adapter::common::clusters::SolanaNetworkCluster;
use wallet_adapter::common::commitment::SolanaNetworkCommitment;

#[test]
fn is_valid_uri() {
    assert_eq!(
        SolanaNetworkCluster::MainNet.endpoint(),
        "https://api.mainnet-beta.solana.com"
    );
    assert_eq!(
        SolanaNetworkCluster::DevNet.endpoint(),
        "https://api.devnet.solana.com"
    );
    assert_eq!(
        SolanaNetworkCluster::TestNet.endpoint(),
        "https://api.testnet.solana.com"
    );
    assert_eq!(
        SolanaNetworkCluster::LocalNet.endpoint(),
        "http://localhost:8899"
    );
}

#[test]
fn test_from() {
    assert_eq!(SolanaNetworkCluster::MainNet, "solana:mainnet".into());
    assert_eq!(SolanaNetworkCluster::DevNet, "solana:devnet".into());
    assert_eq!(SolanaNetworkCluster::TestNet, "solana:testnet".into());
    assert_eq!(SolanaNetworkCluster::LocalNet, "solana:localnet".into());
    assert!(SolanaNetworkCluster::DevNet == "solana:localnet2".into());

    assert_eq!(
        SolanaNetworkCluster::MainNet,
        "https://api.mainnet-beta.solana.com".into()
    );
    assert_eq!(
        SolanaNetworkCluster::DevNet,
        "https://api.devnet.solana.com".into()
    );
    assert_eq!(
        SolanaNetworkCluster::TestNet,
        "https://api.testnet.solana.com".into()
    );
    assert_eq!(
        SolanaNetworkCluster::LocalNet,
        "http://localhost:8899".into()
    );
    assert!(SolanaNetworkCluster::DevNet == "https://localhost:8899".into());
    assert!(SolanaNetworkCluster::DevNet == "https://cluster.foo".into());
}

#[test]
fn validate_endpoint() {
    assert_eq!(
        SolanaNetworkCluster::MainNet.endpoint(),
        "https://api.mainnet-beta.solana.com"
    );
    assert_eq!(
        SolanaNetworkCluster::DevNet.endpoint(),
        "https://api.devnet.solana.com"
    );
    assert_eq!(
        SolanaNetworkCluster::TestNet.endpoint(),
        "https://api.testnet.solana.com"
    );
    assert_eq!(
        SolanaNetworkCluster::LocalNet.endpoint(),
        "http://localhost:8899"
    );
}

#[test]
fn validate_chain() {
    assert_eq!(SolanaNetworkCluster::MainNet.chain(), "solana:mainnet");
    assert_eq!(SolanaNetworkCluster::DevNet.chain(), "solana:devnet");
    assert_eq!(SolanaNetworkCluster::TestNet.chain(), "solana:testnet");
    assert_eq!(SolanaNetworkCluster::LocalNet.chain(), "solana:localnet");
}

#[test]
fn cluster_identifiers_and_namespace() {
    assert_eq!(SolanaNetworkCluster::MainNet.identifier(), "mainnet");
    assert_eq!(SolanaNetworkCluster::TestNet.identifier(), "testnet");
    assert_eq!(SolanaNetworkCluster::DevNet.identifier(), "devnet");
    assert_eq!(SolanaNetworkCluster::LocalNet.identifier(), "localnet");
    assert_eq!(SolanaNetworkCluster::LocalNet.network_namespace(), "solana");
    assert_eq!(
        SolanaNetworkCluster::DevNet.chains(),
        ["solana:mainnet", "solana:testnet", "solana:devnet", "solana:localnet"]
    );
    assert_eq!(SolanaNetworkCluster::default(), SolanaNetworkCluster::DevNet);
    assert_eq!(SolanaNetworkCluster::TestNet.to_text(), "testnet");
}

#[test]
fn cluster_from_identifier() {
    assert_eq!(SolanaNetworkCluster::from_name("mainnet"), SolanaNetworkCluster::MainNet);
    assert_eq!(SolanaNetworkCluster::from_name("testnet"), SolanaNetworkCluster::TestNet);
    assert_eq!(SolanaNetworkCluster::from_name("localnet"), SolanaNetworkCluster::LocalNet);
    assert_eq!(SolanaNetworkCluster::from_name("devnet"), SolanaNetworkCluster::DevNet);
}

#[test]
fn unrecognized_cluster_falls_back_to_devnet() {
    assert_eq!(SolanaNetworkCluster::from_name(""), SolanaNetworkCluster::DevNet);
    assert_eq!(SolanaNetworkCluster::from_name("MainNet"), SolanaNetworkCluster::DevNet);
    assert_eq!(SolanaNetworkCluster::from_name("solana:mainnet "), SolanaNetworkCluster::DevNet);
    assert_eq!(SolanaNetworkCluster::from_name("ethereum:1"), SolanaNetworkCluster::DevNet);
}

#[test]
fn commitment_names() {
    assert_eq!(SolanaNetworkCommitment::Processed.as_str(), "processed");
    assert_eq!(SolanaNetworkCommitment::Confirmed.as_str(), "confirmed");
    assert_eq!(SolanaNetworkCommitment::Finalized.as_str(), "finalized");
    assert_eq!(
        <SolanaNetworkCommitment as Commitment>::into("processed"),
        SolanaNetworkCommitment::Processed
    );
    assert_eq!(
        <SolanaNetworkCommitment as Commitment>::into("confirmed"),
        SolanaNetworkCommitment::Confirmed
    );
    assert_eq!(
        <SolanaNetworkCommitment as Commitment>::into("finalized"),
        SolanaNetworkCommitment::Finalized
    );
    assert_eq!(
        <SolanaNetworkCommitment as Commitment>::into("anything"),
        SolanaNetworkCommitment::Finalized
    );
    assert_eq!(SolanaNetworkCommitment::default(), SolanaNetworkCommitment::Finalized);
    let level = SolanaNetworkCommitment::Finalized;
    assert_eq!(level.processed(), SolanaNetworkCommitment::Processed);
    assert_eq!(level.confirmed(), SolanaNetworkCommitment::Confirmed);
    assert_eq!(level.finalized(), SolanaNetworkCommitment::Finalized);
}

struct Everywhere;

impl ClusterEnabled for Everywhere {}

struct OnlyLocal;

impl ClusterEnabled for OnlyLocal {
    fn mainnet(&self) -> bool {
        false
    }

    fn testnet(&self) -> bool {
        false
    }

    fn devnet(&self) -> bool {
        false
    }
}

#[test]
fn every_cluster_is_enabled_unless_said_otherwise() {
    assert!(Everywhere.mainnet());
    assert!(Everywhere.testnet());
    assert!(Everywhere.devnet());
    assert!(Everywhere.localnet());
    assert!(!OnlyLocal.mainnet());
    assert!(!OnlyLocal.testnet());
    assert!(!OnlyLocal.devnet());
    assert!(OnlyLocal.localnet());
}
