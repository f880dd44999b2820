use vstd::prelude::*;
use crate::custom_errors::no_current_item_error::NoCurrentItemError;

verus! {

/// A position in a structure that is either on an element or on none.
pub trait Cursor<T> {
    /// What must hold of the structure for its cursor to be read.
    spec fn cursor_valid(&self) -> bool;

    /// The element under the cursor, or `NoCurrentItemError` if the cursor
    /// is on none.
    fn item(&self) -> Result<T, NoCurrentItemError>
        requires
            self.cursor_valid(),
    ;

    /// Whether the cursor is on an element.
    fn item_exists(&self) -> bool
        requires
            self.cursor_valid(),
    ;
}

} // verus!
