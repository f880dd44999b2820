use vstd::prelude::*;
use crate::custom_errors::after_the_end_error::AfterTheEndError;
use crate::custom_errors::container_empty_error::ContainerEmptyError;

verus! {

/// A cursor that walks a sequence of elements from the first to the last,
/// with one position in front of the first element and one behind the last.
pub trait LinearIterator {
    /// What must hold of the structure for its cursor to be moved.
    spec fn iterator_valid(&self) -> bool;

    /// Whether the cursor stands in front of the first element.
    fn before(&self) -> bool
        requires
            self.iterator_valid(),
    ;

    /// Whether the cursor stands behind the last element.
    fn after(&self) -> bool
        requires
            self.iterator_valid(),
    ;

    /// Moves the cursor one step on, or fails with `AfterTheEndError` if it
    /// already stands behind the last element.
    fn go_forth(&mut self) -> (r: Result<(), AfterTheEndError>)
        requires
            old(self).iterator_valid(),
        ensures
            final(self).iterator_valid(),
    ;

    /// Moves the cursor to the first element, or fails with
    /// `ContainerEmptyError` if there is none.
    fn go_first(&mut self) -> (r: Result<(), ContainerEmptyError>)
        requires
            old(self).iterator_valid(),
        ensures
            final(self).iterator_valid(),
    ;

    /// Moves the cursor in front of the first element.
    fn go_before(&mut self)
        requires
            old(self).iterator_valid(),
        ensures
            final(self).iterator_valid(),
    ;

    /// Moves the cursor behind the last element.
    fn go_after(&mut self)
        requires
            old(self).iterator_valid(),
        ensures
            final(self).iterator_valid(),
    ;
}

} // verus!
