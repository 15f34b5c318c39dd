//! The vocabulary of the wallet standard that does not depend on a
//! particular network: clusters, commitments, feature identifiers,
//! versions, and the sign-in input with its fields kept as text.

pub mod clusters;
pub mod commitment;
pub mod errors;
pub mod events;
pub mod sign_in;
pub mod version;
