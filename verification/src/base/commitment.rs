//! What a commitment level has to tell about itself.

use vstd::prelude::*;

verus! {

/// A level of finality that a network reports for a transaction.
pub trait Commitment: Sized {
    /// The name of the level.
    spec fn name(&self) -> Seq<char>;

    /// The level that `text` names, where every text names one.
    spec fn named(text: Seq<char>) -> Self;

    /// The level at which a transaction has been processed.
    fn processed(&self) -> Self;

    /// The level at which a transaction has been confirmed.
    fn confirmed(&self) -> Self;

    /// The level at which a transaction has been finalized.
    fn finalized(&self) -> Self;

    /// The level that `commitment_str` names.
    fn into(commitment_str: &str) -> (level: Self)
        ensures
            level == Self::named(commitment_str@),
    ;

    /// The name of the level.
    fn as_str(&self) -> (r: &str)
        ensures
            r@ == self.name(),
    ;
}

} // verus!
