//! The errors that cross the engine boundary.

use vstd::prelude::*;

verus! {

/// A session-setup or store failure that the engine reports to its caller.
///
/// `NoCategories` and `NoPools` are distinct setup-fatal states: the user is
/// told "no categories" and "no pools" by different messages. `NoCards`
/// means the sampler gave up after a long run of pool draws that yielded no
/// card. `StoreFailed` is a card-store read or write that did not succeed.
/// `ScoreOutOfRange` reports a score update that would leave the range of
/// an `i32`.
#[derive(Clone, Copy, Debug, PartialEq, Eq, Structural)]
pub enum EngineError {
    NoCategories,
    NoPools,
    NoCards,
    StoreFailed,
    ScoreOutOfRange,
}

} // verus!
