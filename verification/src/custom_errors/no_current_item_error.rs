use vstd::prelude::*;

verus! {

/// The cursor is at one of its two boundary positions, so there is no current element.
#[derive(Debug, Clone, Copy, PartialEq, Eq, Structural)]
pub struct NoCurrentItemError;

impl NoCurrentItemError {
    /// The fixed message of this error.
    pub fn description(&self) -> (msg: &'static str)
        ensures
            msg@ == "no current item error!"@,
    {
        "no current item error!"
    }
}

} // verus!
