//! The commitment levels of the Solana network.

use crate::base::commitment::Commitment;
use crate::text::text_equal;
use vstd::prelude::*;

verus! {

/// How final the network takes a transaction to be.
#[derive(Debug, PartialEq, Eq, Structural, PartialOrd, Ord, Clone, Copy, Hash)]
pub enum SolanaNetworkCommitment {
    /// The cluster has processed the transaction.
    Processed,
    /// The cluster has confirmed the transaction.
    Confirmed,
    /// The transaction is final.
    Finalized,
}

impl Default for SolanaNetworkCommitment {
    /// The level `Finalized`.
    fn default() -> (level: SolanaNetworkCommitment)
        ensures
            level == SolanaNetworkCommitment::Finalized,
    {
        SolanaNetworkCommitment::Finalized
    }
}

impl Commitment for SolanaNetworkCommitment {
    open spec fn name(&self) -> Seq<char> {
        match self {
            SolanaNetworkCommitment::Processed => "processed"@,
            SolanaNetworkCommitment::Confirmed => "confirmed"@,
            SolanaNetworkCommitment::Finalized => "finalized"@,
        }
    }

    open spec fn named(text: Seq<char>) -> SolanaNetworkCommitment {
        if text == "processed"@ {
            SolanaNetworkCommitment::Processed
        } else if text == "confirmed"@ {
            SolanaNetworkCommitment::Confirmed
        } else {
            SolanaNetworkCommitment::Finalized
        }
    }

    fn processed(&self) -> (level: SolanaNetworkCommitment)
        ensures
            level == SolanaNetworkCommitment::Processed,
    {
        SolanaNetworkCommitment::Processed
    }

    fn confirmed(&self) -> (level: SolanaNetworkCommitment)
        ensures
            level == SolanaNetworkCommitment::Confirmed,
    {
        SolanaNetworkCommitment::Confirmed
    }

    fn finalized(&self) -> (level: SolanaNetworkCommitment)
        ensures
            level == SolanaNetworkCommitment::Finalized,
    {
        SolanaNetworkCommitment::Finalized
    }

    fn into(commitment_str: &str) -> (level: SolanaNetworkCommitment) {
        if text_equal(commitment_str, "processed") {
            SolanaNetworkCommitment::Processed
        } else if text_equal(commitment_str, "confirmed") {
            SolanaNetworkCommitment::Confirmed
        } else {
            SolanaNetworkCommitment::Finalized
        }
    }

    fn as_str(&self) -> (r: &str) {
        match self {
            SolanaNetworkCommitment::Processed => "processed",
            SolanaNetworkCommitment::Confirmed => "confirmed",
            SolanaNetworkCommitment::Finalized => "finalized",
        }
    }
}

} // verus!
