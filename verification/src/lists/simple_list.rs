use vstd::prelude::*;
use crate::base::container::Container;
use crate::custom_errors::container_empty_error::ContainerEmptyError;
use crate::custom_errors::container_full_error::ContainerFullError;
use crate::dictionary::dict::Dict;

verus! {

/// A list that takes and gives elements at both of its ends.
pub trait SimpleList<T>: Dict<T> {
    /// Puts `x` in front of the first element, or fails with
    /// `ContainerFullError` if the list is full.
    fn insert_first(&mut self, x: T) -> (r: Result<(), ContainerFullError>)
        requires
            old(self).container_valid(),
        ensures
            final(self).container_valid(),
    ;

    /// The first element, or `ContainerEmptyError` if there is none.
    fn first_item(&self) -> Result<T, ContainerEmptyError>
        requires
            self.container_valid(),
    ;

    /// Removes the first element, or fails with `ContainerEmptyError` if
    /// there is none.
    fn delete_first(&mut self) -> (r: Result<(), ContainerEmptyError>)
        requires
            old(self).container_valid(),
        ensures
            final(self).container_valid(),
    ;

    /// Puts `x` behind the last element, or fails with `ContainerFullError`
    /// if the list is full.
    fn insert_last(&mut self, x: T) -> (r: Result<(), ContainerFullError>)
        requires
            old(self).container_valid(),
        ensures
            final(self).container_valid(),
    ;

    /// The last element, or `ContainerEmptyError` if there is none.
    fn last_item(&self) -> Result<T, ContainerEmptyError>
        requires
            self.container_valid(),
    ;

    /// Removes the last element, or fails with `ContainerEmptyError` if
    /// there is none.
    fn delete_last(&mut self) -> (r: Result<(), ContainerEmptyError>)
        requires
            old(self).container_valid(),
        ensures
            final(self).container_valid(),
    ;
}

} // verus!
