//! Error surface of this layer.

use vstd::prelude::*;

verus! {

/// The one failure this layer can generate itself: a fixed linkage-attribute
/// literal fails to parse while a declaration is built. It cannot be caused
/// by caller input; it would signal a defect in this layer, and the verified
/// declaration path proves it never occurs.
#[derive(Clone, Copy, Debug, PartialEq, Eq, Structural)]
pub enum Error {
    ParseAttributeError,
}

} // verus!
