use vstd::prelude::*;

verus! {

/// An operation needed an element, and the container holds none.
#[derive(Debug, Clone, Copy, PartialEq, Eq, Structural)]
pub struct ContainerEmptyError;

impl ContainerEmptyError {
    /// The fixed message of this error.
    pub fn description(&self) -> (msg: &'static str)
        ensures
            msg@ == "container empty error!"@,
    {
        "container empty error!"
    }
}

} // verus!
