use vstd::prelude::*;

verus! {

/// A cursor was asked to move before the position in front of the first element.
#[derive(Debug, Clone, Copy, PartialEq, Eq, Structural)]
pub struct BeforeTheStartError;

impl BeforeTheStartError {
    /// The fixed message of this error.
    pub fn description(&self) -> (msg: &'static str)
        ensures
            msg@ == "before the start error!"@,
    {
        "before the start error!"
    }
}

} // verus!
