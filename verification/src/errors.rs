//! Failure taxonomy of genesis construction.

use vstd::prelude::*;

verus! {

/// A construction-fatal failure: a capacity-bounded container was asked to
/// hold more elements than its bound allows. No partial state survives it.
#[derive(Clone, Copy, Debug, PartialEq, Eq, Structural)]
pub enum Error {
    CapacityExceeded,
}

} // verus!
