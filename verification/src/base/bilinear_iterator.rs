use vstd::prelude::*;
use crate::base::linear_iterator::LinearIterator;
use crate::custom_errors::before_the_start_error::BeforeTheStartError;

verus! {

/// A cursor that can also walk from the last element to the first.
pub trait BilinearIterator: LinearIterator {
    /// Moves the cursor to the last element.
    fn go_last(&mut self)
        requires
            old(self).iterator_valid(),
        ensures
            final(self).iterator_valid(),
    ;

    /// Moves the cursor one step back, or fails with `BeforeTheStartError`
    /// if it already stands in front of the first element.
    fn go_back(&mut self) -> (r: Result<(), BeforeTheStartError>)
        requires
            old(self).iterator_valid(),
        ensures
            final(self).iterator_valid(),
    ;
}

} // verus!
