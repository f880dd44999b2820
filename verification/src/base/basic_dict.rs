use vstd::prelude::*;
use crate::base::container::Container;
use crate::base::membership::Membership;
use crate::custom_errors::container_error::ContainerError;
use crate::custom_errors::item_not_found_error::ItemNotFoundError;

verus! {

/// A container whose elements are found, added and removed by value.
pub trait BasicDict<T>: Membership<T> {
    /// The element of the container that equals `y`, or `ItemNotFoundError`
    /// if there is none.
    fn obtain(&mut self, y: T) -> (r: Result<T, ItemNotFoundError>)
        requires
            old(self).container_valid(),
        ensures
            final(self).container_valid(),
    ;

    /// Adds `x`, or fails if the container cannot take it.
    fn insert(&mut self, x: T) -> (r: Result<(), ContainerError>)
        requires
            old(self).container_valid(),
        ensures
            final(self).container_valid(),
    ;

    /// Removes an element equal to `x`, or fails if there is none.
    fn delete(&mut self, x: T) -> (r: Result<(), ContainerError>)
        requires
            old(self).container_valid(),
        ensures
            final(self).container_valid(),
    ;
}

} // verus!
