use vstd::prelude::*;

verus! {

/// The structure was in a state in which the operation cannot be carried out.
#[derive(Debug, Clone, Copy, PartialEq, Eq, Structural)]
pub struct InvalidStateError;

impl InvalidStateError {
    /// The fixed message of this error.
    pub fn description(&self) -> (msg: &'static str)
        ensures
            msg@ == "invalid state error!"@,
    {
        "invalid state error!"
    }
}

} // verus!
