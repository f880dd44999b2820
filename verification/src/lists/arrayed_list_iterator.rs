use vstd::prelude::*;
use crate::base::linear_iterator::LinearIterator;
use crate::custom_errors::after_the_end_error::AfterTheEndError;
use crate::custom_errors::container_empty_error::ContainerEmptyError;
use crate::custom_errors::container_error::ContainerError;
use crate::custom_errors::no_current_item_error::NoCurrentItemError;

verus! {

/// The position behind the last element.
pub const AFTER_POS: i32 = -1;

/// The position in front of the first element.
pub const BEFORE_POS: i32 = -2;

/// What an `ArrayedListIterator` holds: the slots it walks, the slots of
/// the first and the last element, the number of elements, and its
/// position, which is a slot or one of `AFTER_POS` and `BEFORE_POS`.
pub struct IteratorView<T> {
    pub elements: Seq<T>,
    pub head: int,
    pub tail: int,
    pub num_el: nat,
    pub position: int,
}

impl<T> IteratorView<T> {
    /// Whether the position is neither in front of the elements nor behind
    /// them.
    pub open spec fn item_exists(self) -> bool {
        self.position != AFTER_POS && self.position != BEFORE_POS
    }

    /// The element at the position, if the position is a slot and there are
    /// elements.
    pub open spec fn item(self) -> Option<T> {
        if self.item_exists() && self.num_el > 0 && 0 <= self.position < self.elements.len() {
            Some(self.elements[self.position])
        } else {
            None
        }
    }

    /// The slot behind the position: slot 0 behind the last slot, and
    /// behind the largest position there is.
    pub open spec fn next_position(self) -> int {
        if self.position >= i32::MAX || self.position + 1 >= self.elements.len() {
            0
        } else {
            self.position + 1
        }
    }

    /// The position one step on: from in front of the elements to the
    /// first, from the last to behind the elements, else to the next slot.
    /// Behind the elements the position stays.
    pub open spec fn go_forth(self) -> Self {
        IteratorView {
            position: if self.position == BEFORE_POS {
                self.head
            } else if self.position == self.tail {
                AFTER_POS as int
            } else if self.position == AFTER_POS {
                AFTER_POS as int
            } else {
                self.next_position()
            },
            ..self
        }
    }

    /// Whether a step on fails: the position is behind the elements, and
    /// the slot of the last element is not given as that position.
    pub open spec fn at_end(self) -> bool {
        self.position == AFTER_POS && self.tail != AFTER_POS
    }

    /// The same iterator at position `pos`.
    pub open spec fn at(self, pos: int) -> Self {
        IteratorView { position: pos, ..self }
    }
}

/// A cursor over the slots of a list as they were when the iterator was
/// made.
#[derive(Debug, Clone)]
pub struct ArrayedListIterator<T> {
    list_elements: Vec<T>,
    head: i32,
    tail: i32,
    num_el: u32,
    position: i32,
}

impl<T> View for ArrayedListIterator<T> {
    type V = IteratorView<T>;

    closed spec fn view(&self) -> IteratorView<T> {
        IteratorView {
            elements: self.list_elements@,
            head: self.head as int,
            tail: self.tail as int,
            num_el: self.num_el as nat,
            position: self.position as int,
        }
    }
}

impl<T: Copy> ArrayedListIterator<T> {
    /// An iterator over `elements`, of which `num_el` count as elements of
    /// the list, the first in slot `head` and the last in slot `tail`. Its
    /// position is slot 0.
    pub fn new(elements: Vec<T>, head: i32, tail: i32, num_el: u32) -> (it: Self)
        ensures
            it@ == (IteratorView {
                elements: elements@,
                head: head as int,
                tail: tail as int,
                num_el: num_el as nat,
                position: 0,
            }),
    {
        ArrayedListIterator { list_elements: elements, head, tail, num_el, position: 0 }
    }

    /// The position: a slot, `AFTER_POS` or `BEFORE_POS`.
    pub fn position(&self) -> (pos: i32)
        ensures
            pos == self@.position,
    {
        self.position
    }

    /// Sets the position to `pos`. Fails with `AfterTheEnd` if there are no
    /// elements, and else with `InvalidArgument` if there are not more
    /// slots than `pos`; the position then stays as it was.
    pub fn set_position(&mut self, pos: i32) -> (r: Result<(), ContainerError>)
        ensures
            r == (if old(self)@.num_el == 0 {
                Err(ContainerError::AfterTheEnd)
            } else if pos >= old(self)@.elements.len() {
                Err(ContainerError::InvalidArgument)
            } else {
                Ok(())
            }),
            final(self)@ == (if r is Ok {
                old(self)@.at(pos as int)
            } else {
                old(self)@
            }),
    {
        if self.num_el == 0 {
            return Err(ContainerError::AfterTheEnd);
        } else if pos >= 0 && pos as usize >= self.list_elements.len() {
            return Err(ContainerError::InvalidArgument);
        } else {
            self.position = pos;
        }
        Ok(())
    }

    /// The element at the position, or `NoCurrentItemError` if the position
    /// is in front of or behind the elements, if there are no elements, or
    /// if the position is no slot.
    pub fn item(&self) -> (r: Result<T, NoCurrentItemError>)
        ensures
            r is Ok <==> self@.item() is Some,
            r is Ok ==> Some(r->Ok_0) == self@.item(),
    {
        if self.item_exists() && self.num_el > 0 && self.position >= 0 && (self.position as usize)
            < self.list_elements.len() {
            Ok(self.list_elements[self.position as usize])
        } else {
            Err(NoCurrentItemError)
        }
    }

    /// Whether the position is neither in front of the elements nor behind
    /// them.
    pub fn item_exists(&self) -> (r: bool)
        ensures
            r == self@.item_exists(),
    {
        self.position != AFTER_POS && self.position != BEFORE_POS
    }
}

impl<T: Copy> LinearIterator for ArrayedListIterator<T> {
    open spec fn iterator_valid(&self) -> bool {
        true
    }

    fn before(&self) -> (r: bool)
        ensures
            r == (self@.position == BEFORE_POS),
    {
        self.position == BEFORE_POS
    }

    fn after(&self) -> (r: bool)
        ensures
            r == (self@.position == AFTER_POS),
    {
        self.position == AFTER_POS
    }

    /// Moves the position one step on, or fails with `AfterTheEndError` if
    /// it is behind the elements already.
    fn go_forth(&mut self) -> (r: Result<(), AfterTheEndError>)
        ensures
            final(self)@ == old(self)@.go_forth(),
            r is Err <==> old(self)@.at_end(),
    {
        if self.position == BEFORE_POS {
            self.position = self.head;
        } else if self.position == self.tail {
            self.position = AFTER_POS;
        } else if self.position == AFTER_POS {
            return Err(AfterTheEndError);
        } else if self.position == i32::MAX || self.position + 1 >= 0 && (self.position + 1) as usize
            >= self.list_elements.len() {
            self.position = 0;
        } else {
            self.position = self.position + 1;
        }
        Ok(())
    }

    /// Moves the position to the slot of the first element, or fails with
    /// `ContainerEmptyError` if there are no elements.
    fn go_first(&mut self) -> (r: Result<(), ContainerEmptyError>)
        ensures
            r is Err <==> old(self)@.num_el == 0,
            final(self)@ == (if r is Ok {
                old(self)@.at(old(self)@.head)
            } else {
                old(self)@
            }),
    {
        if self.num_el == 0 {
            return Err(ContainerEmptyError);
        } else {
            self.position = self.head;
        }
        Ok(())
    }

    fn go_before(&mut self)
        ensures
            final(self)@ == old(self)@.at(BEFORE_POS as int),
    {
        self.position = BEFORE_POS;
    }

    fn go_after(&mut self)
        ensures
            final(self)@ == old(self)@.at(AFTER_POS as int),
    {
        self.position = AFTER_POS;
    }
}

} // verus!
