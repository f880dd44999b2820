use vstd::prelude::*;

verus! {

/// A cursor was asked to move past the position after the last element.
#[derive(Debug, Clone, Copy, PartialEq, Eq, Structural)]
pub struct AfterTheEndError;

impl AfterTheEndError {
    /// The fixed message of this error.
    pub fn description(&self) -> (msg: &'static str)
        ensures
            msg@ == "after the end error!"@,
    {
        "after the end error!"
    }
}

} // verus!
