use vstd::prelude::*;

verus! {

/// A search ended without finding an element equal to the one asked for.
#[derive(Debug, Clone, Copy, PartialEq, Eq, Structural)]
pub struct ItemNotFoundError;

impl ItemNotFoundError {
    /// The fixed message of this error.
    pub fn description(&self) -> (msg: &'static str)
        ensures
            msg@ == "item not found error!"@,
    {
        "item not found error!"
    }
}

} // verus!
