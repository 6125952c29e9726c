//! Why a reading or a set of scores cannot be rated.

use vstd::prelude::*;

verus! {

/// The ways in which an input falls outside what the scoring rules cover.
#[derive(Clone, Copy, Debug, PartialEq, Eq, Structural)]
pub enum ScoreError {
    /// A percentage below 0 or above 100.
    OutOfRange,
    /// A rank above 5, which names no level.
    UnknownRank,
    /// An average was asked of no scores at all.
    NoScores,
    /// A memory reading that reports a total of zero bytes.
    ZeroTotal,
}

} // verus!
