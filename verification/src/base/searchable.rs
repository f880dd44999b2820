use vstd::prelude::*;
use crate::base::container::Container;
use crate::base::cursor::Cursor;
use crate::base::membership::Membership;

verus! {

/// A container whose cursor can be sent to an element by its value.
pub trait Searchable<T>: Membership<T> + Cursor<T> {
    /// Moves the cursor to the first or the next occurrence of `x`, and to
    /// no element if there is none.
    fn search(&mut self, x: T)
        requires
            old(self).container_valid(),
            old(self).cursor_valid(),
        ensures
            final(self).container_valid(),
            final(self).cursor_valid(),
    ;

    /// From now on every search starts at the first element.
    fn restart_searches(&mut self)
        requires
            old(self).container_valid(),
            old(self).cursor_valid(),
        ensures
            final(self).container_valid(),
            final(self).cursor_valid(),
    ;

    /// From now on every search goes on behind the cursor.
    fn resume_searches(&mut self)
        requires
            old(self).container_valid(),
            old(self).cursor_valid(),
        ensures
            final(self).container_valid(),
            final(self).cursor_valid(),
    ;
}

} // verus!
