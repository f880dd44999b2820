use vstd::prelude::*;
use crate::base::basic_dict::BasicDict;
use crate::base::cursor_saving::CursorSaving;
use crate::base::dispenser::Dispenser;
use crate::base::linear_iterator::LinearIterator;
use crate::base::searchable::Searchable;

verus! {

/// A dictionary that can be searched, walked with a cursor, and changed by
/// value and at the cursor.
pub trait Dict<T>:
    BasicDict<T> + Searchable<T> + Dispenser<T> + LinearIterator + CursorSaving<T> {
}

} // verus!
