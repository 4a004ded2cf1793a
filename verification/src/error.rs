//! General-purpose error carriers.
use vstd::prelude::*;

verus! {

/// A failure while building a virtual-machine structure, carrying a
/// description.
#[derive(Clone, Debug, PartialEq)]
pub struct VariableError {
    pub msg: String,
}

} // verus!
