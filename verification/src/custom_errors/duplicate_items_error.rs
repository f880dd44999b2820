use vstd::prelude::*;

verus! {

/// An element was to be added that the container already holds.
#[derive(Debug, Clone, Copy, PartialEq, Eq, Structural)]
pub struct DuplicateItemsError;

impl DuplicateItemsError {
    /// The fixed message of this error.
    pub fn description(&self) -> (msg: &'static str)
        ensures
            msg@ == "duplicate items error!"@,
    {
        "duplicate items error!"
    }
}

} // verus!
