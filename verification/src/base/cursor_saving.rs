use vstd::prelude::*;
use crate::base::cursor_position::CursorPosition;

verus! {

/// A structure whose cursor position can be taken and later gone back to.
pub trait CursorSaving<T> {
    /// What must hold of the structure for its position to be taken or set.
    spec fn saving_valid(&self) -> bool;

    /// The position of the cursor now.
    fn current_position(&self) -> CursorPosition<T>
        requires
            self.saving_valid(),
    ;

    /// Moves the cursor to `pos`.
    fn go_position(&mut self, pos: CursorPosition<T>)
        requires
            old(self).saving_valid(),
        ensures
            final(self).saving_valid(),
    ;
}

} // verus!
