use vstd::prelude::*;
use crate::lists::arrayed_list_iterator::ArrayedListIterator;

verus! {

/// A position of a cursor that was taken from a structure and can be given
/// back to it, whatever kind of structure it is.
#[derive(Debug, Clone)]
pub enum CursorPosition<T> {
    ArrayedList(ArrayedListIterator<T>),
}

} // verus!
