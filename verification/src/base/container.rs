use vstd::prelude::*;

verus! {

/// A structure that holds elements, up to some limit.
pub trait Container {
    /// What must hold of a container for its operations to be called.
    spec fn container_valid(&self) -> bool;

    /// Whether the container holds no element.
    fn is_empty(&self) -> bool
        requires
            self.container_valid(),
    ;

    /// Whether the container holds as many elements as it can.
    fn is_full(&self) -> bool
        requires
            self.container_valid(),
    ;

    /// Removes every element.
    fn clear(&mut self)
        requires
            old(self).container_valid(),
        ensures
            final(self).container_valid(),
    ;
}

} // verus!
