use vstd::prelude::*;

verus! {

/// An element was to be added to a container that is at its capacity.
#[derive(Debug, Clone, Copy, PartialEq, Eq, Structural)]
pub struct ContainerFullError;

impl ContainerFullError {
    /// The fixed message of this error.
    pub fn description(&self) -> (msg: &'static str)
        ensures
            msg@ == "container full error!"@,
    {
        "container full error!"
    }
}

} // verus!
