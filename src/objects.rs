//! Outcome of shooting a ray at an intersectable object.
use vstd::prelude::*;

verus! {

/// Whether a ray struck an object (and improved the hit record) or missed.
#[derive(Clone, Copy, Debug, PartialEq, Eq, Structural)]
pub enum Shot {
    Hit,
    Miss,
}

} // verus!
