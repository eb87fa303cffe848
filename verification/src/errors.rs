use vstd::prelude::*;

verus! {

/// Errors reported by the indicators' constructors.
#[derive(Debug, Clone, Copy, PartialEq, Eq, Structural)]
pub enum TaError {
    /// A parameter is out of its domain (a period of zero).
    InvalidParameter,
}

} // verus!
