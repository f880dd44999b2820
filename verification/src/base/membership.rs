use vstd::prelude::*;
use crate::base::container::Container;

verus! {

/// A container that can say whether it holds an element, and when two
/// elements count as the same.
pub trait Membership<T>: Container {
    /// Whether the container holds an element equal to `x`.
    fn has(&self, x: T) -> bool
        requires
            self.container_valid(),
    ;

    /// Whether `x` and `y` count as the same element.
    fn membership_equals(&self, x: T, y: T) -> bool;
}

} // verus!
