//! Error taxonomy for the client core.

use vstd::prelude::*;

verus! {

/// Everything that can go wrong in the client core or at its I/O edge.
///
/// `MissingConfig` names the configuration variable that was absent,
/// `Network` and `Deserialize` carry a human-readable cause, and the two
/// unit variants mark the recoverable conditions of the player UI.
#[derive(Debug, Clone, PartialEq, Eq)]
pub enum Error {
    MissingConfig(String),
    Network(String),
    Deserialize(String),
    MissingCoverArt,
    NoCurrentSong,
}

} // verus!
