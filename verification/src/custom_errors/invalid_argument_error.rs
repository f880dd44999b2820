use vstd::prelude::*;

verus! {

/// An argument was outside the range that the operation accepts.
#[derive(Debug, Clone, Copy, PartialEq, Eq, Structural)]
pub struct InvalidArgumentError;

impl InvalidArgumentError {
    /// The fixed message of this error.
    pub fn description(&self) -> (msg: &'static str)
        ensures
            msg@ == "invalid argument error!"@,
    {
        "invalid argument error!"
    }
}

} // verus!
