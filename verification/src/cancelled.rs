//! The error that stands for the user calling an operation off.

use vstd::prelude::*;

verus! {

/// Indicates that the user cancelled the operation.
#[derive(Debug, Clone, Copy, PartialEq, Eq, Structural)]
pub struct Cancelled;

impl Cancelled {
    /// The wording the error carries.
    pub fn message(&self) -> (r: &'static str)
        ensures
            r@ == "Task cancelled"@,
    {
        "Task cancelled"
    }
}

} // verus!
