use vstd::prelude::*;

verus! {

/// Two values side by side.
#[derive(Copy, Clone, Debug)]
pub struct Pair<T, U> {
    pub first_item: T,
    pub second_item: U,
}

impl<T, U> Pair<T, U> {
    /// The pair of `first_item` and `second_item`.
    pub fn new(first_item: T, second_item: U) -> (pair: Self)
        ensures
            pair.first_item == first_item,
            pair.second_item == second_item,
    {
        Pair { first_item, second_item }
    }
}

} // verus!
