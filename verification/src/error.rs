//! The failure values a parser can return.

use vstd::prelude::*;

verus! {

/// Why a parser failed.
///
/// `Mismatch` is the only failure a primitive parser produces: the input does
/// not begin with the expected literal. `CombinedMismatch` is produced by
/// alternation when both branches failed; the two underlying failures are not
/// distinguished further, since every failure of this library carries no
/// message or position.
#[derive(Clone, Copy, Debug, PartialEq, Eq, Structural)]
pub enum ParseError {
    /// The input does not begin with the expected literal.
    Mismatch,
    /// Neither branch of an alternation matched.
    CombinedMismatch,
}

} // verus!
