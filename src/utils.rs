//! Small shared vocabulary of the renderer.
use vstd::prelude::*;

verus! {

/// A coordinate axis, about which a rotation turns.
#[derive(Clone, Copy, Debug, PartialEq, Eq, Structural)]
pub enum Axis {
    X,
    Y,
    Z,
}

} // verus!
