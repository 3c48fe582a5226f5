//! Values that the clients share.

use vstd::prelude::*;

verus! {

/// The side of the book that an order would take.
#[derive(Clone, Copy, Debug, PartialEq, Eq, Structural)]
pub enum Side {
    Buy,
    Sell,
}

} // verus!
