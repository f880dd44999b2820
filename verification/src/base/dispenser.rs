use vstd::prelude::*;
use crate::base::container::Container;
use crate::base::cursor::Cursor;
use crate::custom_errors::container_error::ContainerError;
use crate::custom_errors::no_current_item_error::NoCurrentItemError;

verus! {

/// A container that adds and removes elements at its cursor.
pub trait Dispenser<T>: Container + Cursor<T> {
    /// Adds `x` next to the cursor, or fails if the container cannot take it.
    fn insert_item(&mut self, x: T) -> (r: Result<(), ContainerError>)
        requires
            old(self).container_valid(),
            old(self).cursor_valid(),
        ensures
            final(self).container_valid(),
            final(self).cursor_valid(),
    ;

    /// Removes the element under the cursor, or fails with
    /// `NoCurrentItemError` if the cursor is on none.
    fn delete_item(&mut self) -> (r: Result<(), NoCurrentItemError>)
        requires
            old(self).container_valid(),
            old(self).cursor_valid(),
        ensures
            final(self).container_valid(),
            final(self).cursor_valid(),
    ;
}

} // verus!
