use vstd::prelude::*;
use vstd::laws_eq::obeys_concrete_eq;
use crate::base::basic_dict::BasicDict;
use crate::base::container::Container;
use crate::base::cursor::Cursor;
use crate::base::cursor_position::CursorPosition;
use crate::base::cursor_saving::CursorSaving;
use crate::base::dispenser::Dispenser;
use crate::base::linear_iterator::LinearIterator;
use crate::base::membership::Membership;
use crate::base::searchable::Searchable;
use crate::custom_errors::after_the_end_error::AfterTheEndError;
use crate::custom_errors::container_empty_error::ContainerEmptyError;
use crate::custom_errors::container_error::ContainerError;
use crate::custom_errors::container_full_error::ContainerFullError;
use crate::custom_errors::invalid_argument_error::InvalidArgumentError;
use crate::custom_errors::item_not_found_error::ItemNotFoundError;
use crate::custom_errors::no_current_item_error::NoCurrentItemError;
use crate::dictionary::dict::Dict;
use crate::lists::arrayed_list_iterator::{
    ArrayedListIterator, IteratorView, AFTER_POS, BEFORE_POS,
};
use crate::lists::list_view::{
    first_match, lemma_first_match_found, lemma_first_match_least, ListView, Place,
};
use crate::lists::ring::{lemma_slot_is_mod, lemma_step_is_mod, next_slot, offset, prev_slot, slot};
use crate::lists::simple_list::SimpleList;

verus! {

/// The largest capacity a list can be made with: positions are handed out
/// as 32-bit signed integers.
pub const MAX_CAPACITY: usize = 0x7fff_ffff;

/// Where the cursor of a list stands: in front of the first element, behind
/// the last, or on the element in a slot of the storage.
#[derive(Debug, Clone, Copy, PartialEq, Eq, Structural)]
pub enum Position {
    Before,
    After,
    At(usize),
}

/// Where a search begins.
#[derive(Debug, Clone, Copy, PartialEq, Eq, Structural)]
pub enum SearchMode {
    /// At the first element.
    Restart,
    /// Behind the cursor.
    Resume,
}

/// A list of at most `capacity` elements with a cursor, kept in a ring of
/// `capacity` slots: the elements lie in the slots from `head` on, wrapping
/// round at the end of the storage, and the last one lies in `tail`.
#[derive(Debug, Clone)]
pub struct ArrayedList<T> {
    storage: Vec<Option<T>>,
    head: usize,
    tail: usize,
    capacity: usize,
    count: usize,
    cursor: Position,
    search_mode: SearchMode,
}

impl<T> ArrayedList<T> {
    /// The invariant of the representation.
    pub closed spec fn wf(&self) -> bool {
        let cap = self.capacity as int;
        &&& self.storage@.len() == self.capacity
        &&& self.capacity <= MAX_CAPACITY
        &&& self.count <= self.capacity
        &&& (self.count == 0 ==> self.head == 0 && self.tail == 0)
        &&& (self.count > 0 ==> self.head < self.capacity && self.tail == slot(
            self.head as int,
            self.count - 1,
            cap,
        ))
        &&& (forall|i: int|
            0 <= i < self.count ==> (#[trigger] self.storage@[slot(self.head as int, i, cap)]) is Some)
        &&& match self.cursor {
            Position::At(p) => p < self.capacity && offset(self.head as int, p as int, cap)
                < self.count,
            _ => true,
        }
    }

    /// The elements of the list from the first to the last.
    pub closed spec fn items(&self) -> Seq<T> {
        Seq::new(
            self.count as nat,
            |i: int| self.storage@[slot(self.head as int, i, self.capacity as int)].unwrap(),
        )
    }

    /// The place of the cursor, counted in elements from the first.
    pub closed spec fn place(&self) -> Place {
        match self.cursor {
            Position::Before => Place::Before,
            Position::After => Place::After,
            Position::At(p) => Place::At(offset(self.head as int, p as int, self.capacity as int)),
        }
    }

    /// Well-formed lists have well-formed views.
    pub proof fn lemma_view_wf(&self)
        requires
            self.wf(),
        ensures
            self@.wf(),
    {
    }
}

impl<T> View for ArrayedList<T> {
    type V = ListView<T>;

    closed spec fn view(&self) -> ListView<T> {
        ListView {
            items: self.items(),
            capacity: self.capacity as nat,
            cursor: self.place(),
            resume: self.search_mode == SearchMode::Resume,
        }
    }
}

impl<T: Copy> ArrayedList<T> {
    /// An empty list that can hold `capacity` elements, with its cursor in
    /// front and with searches that start at the first element.
    pub fn new(capacity: usize) -> (list: Self)
        requires
            capacity <= MAX_CAPACITY,
        ensures
            list.wf(),
            list@ == ListView::<T>::empty(capacity as nat),
    {
        let mut storage: Vec<Option<T>> = Vec::with_capacity(capacity);
        let mut i: usize = 0;
        while i < capacity
            invariant
                i <= capacity,
                storage@.len() == i,
            decreases capacity - i,
        {
            storage.push(None);
            i += 1;
        }
        let list = ArrayedList {
            storage,
            head: 0,
            tail: 0,
            capacity,
            count: 0,
            cursor: Position::Before,
            search_mode: SearchMode::Restart,
        };
        assert(list.items() =~= Seq::<T>::empty());
        list
    }

    /// The number of elements the list can hold.
    pub fn capacity(&self) -> (c: usize)
        ensures
            c == self@.capacity,
    {
        self.capacity
    }
}

impl<T: Copy> Container for ArrayedList<T> {
    open spec fn container_valid(&self) -> bool {
        self.wf()
    }

    fn is_empty(&self) -> (r: bool)
        ensures
            r == self@.is_empty(),
    {
        self.count == 0
    }

    fn is_full(&self) -> (r: bool)
        ensures
            r == self@.is_full(),
    {
        self.count == self.capacity
    }

    fn clear(&mut self)
        ensures
            final(self).wf(),
            final(self)@ == old(self)@.clear(),
    {
        let mut i: usize = 0;
        while i < self.capacity
            invariant
                i <= self.capacity,
                self.capacity == old(self).capacity,
                self.capacity <= MAX_CAPACITY,
                self.search_mode == old(self).search_mode,
                self.storage@.len() == self.capacity,
            decreases self.capacity - i,
        {
            self.storage.set(i, None);
            i += 1;
        }
        self.count = 0;
        self.head = 0;
        self.tail = 0;
        self.cursor = Position::Before;
        assert(self.items() =~= Seq::<T>::empty());
    }
}

impl<T: Copy> ArrayedList<T> {
    /// The slot behind slot `p`, wrapping round at the end of the storage.
    fn next(&self, p: usize) -> (q: usize)
        requires
            self.wf(),
            p < self.capacity,
        ensures
            q == next_slot(p as int, self.capacity as int),
            q == (p + 1) % (self.capacity as int),
            q < self.capacity,
    {
        proof {
            lemma_step_is_mod(p as int, self.capacity as int);
        }
        (p + 1) % self.capacity
    }

    /// The slot in front of slot `p`, wrapping round at the start of the
    /// storage.
    fn prev(&self, p: usize) -> (q: usize)
        requires
            self.wf(),
            p < self.capacity,
        ensures
            q == prev_slot(p as int, self.capacity as int),
            q == (p + self.capacity - 1) % (self.capacity as int),
            q < self.capacity,
    {
        proof {
            lemma_step_is_mod(p as int, self.capacity as int);
        }
        (p + self.capacity - 1) % self.capacity
    }

    /// The slot of the element with index `i`.
    fn slot_of(&self, i: usize) -> (p: usize)
        requires
            self.wf(),
            i < self.capacity,
            self.head < self.capacity,
        ensures
            p == slot(self.head as int, i as int, self.capacity as int),
            p == (self.head + i) % (self.capacity as int),
            p < self.capacity,
    {
        proof {
            lemma_slot_is_mod(self.head as int, i as int, self.capacity as int);
        }
        (self.head + i) % self.capacity
    }

    /// The index of the element in slot `p`.
    fn index_of(&self, p: usize) -> (i: usize)
        requires
            self.wf(),
            p < self.capacity,
            self.head < self.capacity,
        ensures
            i == offset(self.head as int, p as int, self.capacity as int),
            i < self.capacity,
    {
        if p >= self.head {
            p - self.head
        } else {
            p + self.capacity - self.head
        }
    }

    /// The element in slot `p`.
    fn element(&self, p: usize) -> (x: T)
        requires
            self.wf(),
            p < self.capacity,
            offset(self.head as int, p as int, self.capacity as int) < self.count,
        ensures
            x == self.items()[offset(self.head as int, p as int, self.capacity as int)],
            Some(x) == self.storage@[p as int],
    {
        assert(slot(
            self.head as int,
            offset(self.head as int, p as int, self.capacity as int),
            self.capacity as int,
        ) == p);
        self.storage[p].unwrap()
    }
}

impl<T: Copy> Cursor<T> for ArrayedList<T> {
    open spec fn cursor_valid(&self) -> bool {
        self.wf()
    }

    fn item(&self) -> (r: Result<T, NoCurrentItemError>)
        ensures
            r is Ok <==> self@.item_exists(),
            r is Ok ==> Some(r->Ok_0) == self@.item(),
    {
        match self.cursor {
            Position::At(p) => Ok(self.element(p)),
            _ => Err(NoCurrentItemError),
        }
    }

    fn item_exists(&self) -> (r: bool)
        ensures
            r == self@.item_exists(),
    {
        match self.cursor {
            Position::At(_) => true,
            _ => false,
        }
    }
}

impl<T: Copy> LinearIterator for ArrayedList<T> {
    open spec fn iterator_valid(&self) -> bool {
        self.wf()
    }

    fn before(&self) -> (r: bool)
        ensures
            r == self@.before(),
    {
        match self.cursor {
            Position::Before => true,
            _ => false,
        }
    }

    fn after(&self) -> (r: bool)
        ensures
            r == self@.after(),
    {
        match self.cursor {
            Position::After => true,
            _ => false,
        }
    }

    /// From in front of the list the cursor goes to the first element, and
    /// behind the list if there is none; from the last element it goes
    /// behind the list; from any other element to the next one. Behind the
    /// list the call fails and the cursor stays.
    fn go_forth(&mut self) -> (r: Result<(), AfterTheEndError>)
        ensures
            final(self).wf(),
            final(self)@ == old(self)@.go_forth(),
            r is Err <==> old(self)@.after(),
    {
        match self.cursor {
            Position::Before => {
                if self.count == 0 {
                    self.cursor = Position::After;
                } else {
                    self.cursor = Position::At(self.head);
                }
                Ok(())
            },
            Position::After => Err(AfterTheEndError),
            Position::At(p) => {
                if p == self.tail {
                    self.cursor = Position::After;
                } else {
                    let q = self.next(p);
                    self.cursor = Position::At(q);
                }
                Ok(())
            },
        }
    }

    /// The cursor goes to the first element. In a list without elements the
    /// call fails, and the cursor stays where it is.
    fn go_first(&mut self) -> (r: Result<(), ContainerEmptyError>)
        ensures
            final(self).wf(),
            final(self)@ == old(self)@.go_first(),
            r is Err <==> old(self)@.is_empty(),
    {
        if self.count == 0 {
            Err(ContainerEmptyError)
        } else {
            self.cursor = Position::At(self.head);
            Ok(())
        }
    }

    fn go_before(&mut self)
        ensures
            final(self).wf(),
            final(self)@ == old(self)@.go_before(),
    {
        self.cursor = Position::Before;
    }

    fn go_after(&mut self)
        ensures
            final(self).wf(),
            final(self)@ == old(self)@.go_after(),
    {
        self.cursor = Position::After;
    }
}

impl<T: Copy + PartialEq> Dict<T> for ArrayedList<T> {
}

impl<T: Copy + PartialEq> SimpleList<T> for ArrayedList<T> {
    fn insert_first(&mut self, x: T) -> (r: Result<(), ContainerFullError>)
        ensures
            final(self).wf(),
            final(self)@ == old(self)@.insert_first(x),
            r is Err <==> old(self)@.is_full(),
    {
        if self.is_full() {
            return Err(ContainerFullError);
        }
        if self.count > 0 {
            self.head = self.prev(self.head);
        }
        self.storage.set(self.head, Some(x));
        self.count = self.count + 1;
        proof {
            let cap = self.capacity as int;
            assert forall|i: int| 0 <= i < self.count implies (#[trigger] self.storage@[slot(
                self.head as int,
                i,
                cap,
            )]) is Some by {
                if i > 0 {
                    assert(slot(self.head as int, i, cap) == slot(old(self).head as int, i - 1, cap));
                }
            }
            assert forall|i: int| 0 <= i < self.count implies self.items()[i] == (seq![x]
                + old(self).items())[i] by {
                if i > 0 {
                    assert(slot(self.head as int, i, cap) == slot(old(self).head as int, i - 1, cap));
                }
            }
            assert(self.items() =~= seq![x] + old(self).items());
        }
        Ok(())
    }

    fn first_item(&self) -> (r: Result<T, ContainerEmptyError>)
        ensures
            r is Err <==> self@.is_empty(),
            r is Ok ==> r->Ok_0 == self@.items[0],
    {
        if self.is_empty() {
            return Err(ContainerEmptyError);
        }
        Ok(self.element(self.head))
    }

    fn delete_first(&mut self) -> (r: Result<(), ContainerEmptyError>)
        ensures
            final(self).wf(),
            final(self)@ == old(self)@.delete_first(),
            r is Err <==> old(self)@.is_empty(),
    {
        if self.is_empty() {
            return Err(ContainerEmptyError);
        }
        let following = self.next(self.head);
        if self.cursor == Position::At(self.head) {
            self.cursor = Position::At(following);
        }
        self.storage.set(self.head, None);
        self.head = following;
        self.count = self.count - 1;
        if self.count == 0 {
            self.head = 0;
            self.tail = 0;
            self.cursor = Position::Before;
        }
        proof {
            let cap = self.capacity as int;
            assert forall|i: int| 0 <= i < self.count implies slot(self.head as int, i, cap)
                == slot(old(self).head as int, i + 1, cap) by {}
            assert forall|i: int| 0 <= i < self.count implies (#[trigger] self.storage@[slot(
                self.head as int,
                i,
                cap,
            )]) is Some by {
                assert(slot(self.head as int, i, cap) == slot(old(self).head as int, i + 1, cap));
            }
            assert(self.items() =~= old(self).items().subrange(1, old(self).count as int));
        }
        Ok(())
    }

    fn insert_last(&mut self, x: T) -> (r: Result<(), ContainerFullError>)
        ensures
            final(self).wf(),
            final(self)@ == old(self)@.insert_last(x),
            r is Err <==> old(self)@.is_full(),
    {
        if self.is_full() {
            return Err(ContainerFullError);
        }
        if self.count > 0 {
            self.tail = self.next(self.tail);
        }
        self.storage.set(self.tail, Some(x));
        self.count = self.count + 1;
        proof {
            assert(self.items() =~= old(self).items().push(x));
        }
        Ok(())
    }

    fn last_item(&self) -> (r: Result<T, ContainerEmptyError>)
        ensures
            r is Err <==> self@.is_empty(),
            r is Ok ==> r->Ok_0 == self@.items[self@.items.len() - 1],
    {
        if self.is_empty() {
            return Err(ContainerEmptyError);
        }
        Ok(self.element(self.tail))
    }

    fn delete_last(&mut self) -> (r: Result<(), ContainerEmptyError>)
        ensures
            final(self).wf(),
            final(self)@ == old(self)@.delete_last(),
            r is Err <==> old(self)@.is_empty(),
    {
        if self.is_empty() {
            return Err(ContainerEmptyError);
        }
        let preceding = self.prev(self.tail);
        if self.cursor == Position::At(self.tail) {
            self.cursor = Position::At(preceding);
        }
        self.storage.set(self.tail, None);
        self.tail = preceding;
        self.count = self.count - 1;
        if self.count == 0 {
            self.head = 0;
            self.tail = 0;
            self.cursor = Position::Before;
        }
        proof {
            assert(self.items() =~= old(self).items().subrange(0, old(self).count - 1));
        }
        Ok(())
    }
}

impl<T: Copy> ArrayedList<T> {
    /// Takes out the element with index `j`, moving the elements behind it
    /// one slot towards the head, and leaves the cursor in front of the list.
    fn remove_at(&mut self, j: usize)
        requires
            old(self).wf(),
            j < old(self).count,
        ensures
            final(self).wf(),
            final(self).items() == old(self).items().remove(j as int),
            final(self).capacity == old(self).capacity,
            final(self).count == old(self).count - 1,
            final(self).search_mode == old(self).search_mode,
            final(self).cursor == Position::Before,
    {
        let ghost cap = self.capacity as int;
        let ghost head = self.head as int;
        let ghost before = self.storage@;
        self.cursor = Position::Before;
        if j == 0 {
            let following = self.next(self.head);
            self.storage.set(self.head, None);
            self.head = following;
        } else {
            let mut l: usize = j;
            while l + 1 < self.count
                invariant
                    j <= l < self.count,
                    self.count == old(self).count,
                    self.capacity == old(self).capacity,
                    self.head == old(self).head,
                    self.tail == old(self).tail,
                    self.search_mode == old(self).search_mode,
                    self.cursor == Position::Before,
                    cap == self.capacity,
                    head == self.head,
                    before == old(self).storage@,
                    old(self).wf(),
                    self.wf(),
                    forall|p: int|
                        0 <= p < cap ==> #[trigger] self.storage@[p] == (if j <= offset(head, p, cap)
                            < l {
                            before[slot(head, offset(head, p, cap) + 1, cap)]
                        } else {
                            before[p]
                        }),
                decreases self.count - l,
            {
                let to = self.slot_of(l);
                let from = self.slot_of(l + 1);
                let moved = self.storage[from];
                self.storage.set(to, moved);
                l = l + 1;
                proof {
                    assert forall|i: int| 0 <= i < self.count implies (#[trigger] self.storage@[slot(
                        head,
                        i,
                        cap,
                    )]) is Some by {
                        let p = slot(head, i, cap);
                        assert(offset(head, p, cap) == i);
                        if j <= i < l {
                            assert(before[slot(head, i + 1, cap)] is Some);
                        } else {
                            assert(before[slot(head, i, cap)] is Some);
                        }
                    }
                }
            }
            let preceding = self.prev(self.tail);
            self.storage.set(self.tail, None);
            self.tail = preceding;
        }
        self.count = self.count - 1;
        if self.count == 0 {
            self.head = 0;
            self.tail = 0;
        }
        proof {
            let new_head = self.head as int;
            assert forall|i: int| 0 <= i < self.count implies (#[trigger] self.storage@[slot(
                new_head,
                i,
                cap,
            )]) == (if i < j {
                before[slot(head, i, cap)]
            } else {
                before[slot(head, i + 1, cap)]
            }) by {
                if j == 0 {
                    assert(slot(new_head, i, cap) == slot(head, i + 1, cap));
                } else {
                    let p = slot(head, i, cap);
                    assert(offset(head, p, cap) == i);
                }
            }
            assert forall|i: int| 0 <= i < self.count implies (#[trigger] self.storage@[slot(
                new_head,
                i,
                cap,
            )]) is Some by {
                if i < j {
                    assert(before[slot(head, i, cap)] is Some);
                } else {
                    assert(before[slot(head, i + 1, cap)] is Some);
                }
            }
            assert(self.items() =~= old(self).items().remove(j as int));
        }
    }

    /// Puts `x` in as the element with index `k`, moving the elements from
    /// that index on one slot towards the tail, and leaves the cursor in
    /// front of the list.
    fn insert_at(&mut self, k: usize, x: T)
        requires
            old(self).wf(),
            old(self).count < old(self).capacity,
            k <= old(self).count,
        ensures
            final(self).wf(),
            final(self).items() == old(self).items().insert(k as int, x),
            final(self).capacity == old(self).capacity,
            final(self).count == old(self).count + 1,
            final(self).search_mode == old(self).search_mode,
            final(self).cursor == Position::Before,
    {
        let ghost cap = self.capacity as int;
        let ghost head = self.head as int;
        let ghost before = self.storage@;
        self.cursor = Position::Before;
        if self.count == 0 {
            self.storage.set(0, Some(x));
        } else if k == 0 {
            self.head = self.prev(self.head);
            self.storage.set(self.head, Some(x));
        } else {
            let mut l: usize = self.count;
            while l > k
                invariant
                    k <= l <= self.count,
                    0 < self.count < self.capacity,
                    self.count == old(self).count,
                    self.capacity == old(self).capacity,
                    self.head == old(self).head,
                    self.tail == old(self).tail,
                    self.search_mode == old(self).search_mode,
                    self.cursor == Position::Before,
                    cap == self.capacity,
                    head == self.head,
                    before == old(self).storage@,
                    old(self).wf(),
                    self.wf(),
                    forall|p: int|
                        0 <= p < cap ==> #[trigger] self.storage@[p] == (if l < offset(head, p, cap)
                            <= self.count {
                            before[slot(head, offset(head, p, cap) - 1, cap)]
                        } else {
                            before[p]
                        }),
                decreases l,
            {
                let to = self.slot_of(l);
                let from = self.slot_of(l - 1);
                let moved = self.storage[from];
                self.storage.set(to, moved);
                l = l - 1;
                proof {
                    assert forall|i: int| 0 <= i < self.count implies (#[trigger] self.storage@[slot(
                        head,
                        i,
                        cap,
                    )]) is Some by {
                        let p = slot(head, i, cap);
                        assert(offset(head, p, cap) == i);
                        if l < i {
                            assert(before[slot(head, i - 1, cap)] is Some);
                        } else {
                            assert(before[slot(head, i, cap)] is Some);
                        }
                    }
                }
            }
            let at = self.slot_of(k);
            self.storage.set(at, Some(x));
            self.tail = self.next(self.tail);
        }
        self.count = self.count + 1;
        proof {
            let new_head = self.head as int;
            let old_count = old(self).count as int;
            assert forall|i: int| 0 <= i < self.count implies (#[trigger] self.storage@[slot(
                new_head,
                i,
                cap,
            )]) == (if i < k {
                before[slot(head, i, cap)]
            } else if i == k {
                Some(x)
            } else {
                before[slot(head, i - 1, cap)]
            }) by {
                if old_count == 0 {
                } else if k == 0 {
                    if i > 0 {
                        assert(slot(new_head, i, cap) == slot(head, i - 1, cap));
                    }
                } else {
                    let p = slot(head, i, cap);
                    assert(offset(head, p, cap) == i);
                }
            }
            assert forall|i: int| 0 <= i < self.count implies (#[trigger] self.storage@[slot(
                new_head,
                i,
                cap,
            )]) is Some by {
                if i < k {
                    assert(before[slot(head, i, cap)] is Some);
                } else if i > k {
                    assert(before[slot(head, i - 1, cap)] is Some);
                }
            }
            assert(self.items() =~= old(self).items().insert(k as int, x));
        }
    }
}

impl<T: Copy> Dispenser<T> for ArrayedList<T> {
    /// `x` goes in behind the element under the cursor, as the first
    /// element if the cursor stands in front of the list and as the last if
    /// it stands behind it, and the cursor goes onto `x`. A full list is
    /// left as it is, and the call fails with `ContainerFull`.
    fn insert_item(&mut self, x: T) -> (r: Result<(), ContainerError>)
        ensures
            final(self).wf(),
            final(self)@ == old(self)@.insert_item(x),
            r is Err <==> old(self)@.is_full(),
            r is Err ==> r->Err_0 == ContainerError::ContainerFull,
    {
        if self.is_full() {
            return Err(ContainerError::ContainerFull);
        }
        let k = match self.cursor {
            Position::Before => 0,
            Position::At(p) => self.index_of(p) + 1,
            Position::After => self.count,
        };
        self.insert_at(k, x);
        let at = self.slot_of(k);
        self.cursor = Position::At(at);
        Ok(())
    }

    /// The element under the cursor leaves, and the cursor is then on the
    /// element that followed it, behind the list if none did, and in front
    /// of a list that is left without elements. With the cursor on no
    /// element the call fails and the list is left as it is.
    fn delete_item(&mut self) -> (r: Result<(), NoCurrentItemError>)
        ensures
            final(self).wf(),
            final(self)@ == old(self)@.delete_item(),
            r is Err <==> !old(self)@.item_exists(),
    {
        match self.cursor {
            Position::At(p) => {
                let j = self.index_of(p);
                let was_last = j + 1 == self.count;
                self.remove_at(j);
                if self.count == 0 {
                    self.cursor = Position::Before;
                } else if was_last {
                    self.cursor = Position::After;
                } else {
                    let at = self.slot_of(j);
                    self.cursor = Position::At(at);
                }
                Ok(())
            },
            _ => Err(NoCurrentItemError),
        }
    }
}

impl<T: Copy + PartialEq> ArrayedList<T> {
    /// The index of the first element at or behind index `from` that equals
    /// `x`, or the number of elements if there is none.
    fn find_from(&self, x: T, from: usize) -> (j: usize)
        requires
            self.wf(),
            from <= self.count,
        ensures
            from <= j <= self.count,
            obeys_concrete_eq::<T>() ==> j == first_match(self.items(), x, from as int),
    {
        let mut j: usize = from;
        while j < self.count
            invariant
                self.wf(),
                from <= j <= self.count,
                obeys_concrete_eq::<T>() ==> first_match(self.items(), x, from as int)
                    == first_match(self.items(), x, j as int),
            decreases self.count - j,
        {
            let p = self.slot_of(j);
            let here = self.element(p);
            if self.membership_equals(x, here) {
                return j;
            }
            j = j + 1;
        }
        j
    }

    /// The index at which the next search begins to compare.
    fn search_start(&self) -> (from: usize)
        requires
            self.wf(),
        ensures
            from == self@.search_start(),
            from <= self.count,
    {
        match self.search_mode {
            SearchMode::Restart => 0,
            SearchMode::Resume => match self.cursor {
                Position::Before => 0,
                Position::At(p) => self.index_of(p) + 1,
                Position::After => self.count,
            },
        }
    }

    /// Moves the cursor as `search` does, and touches nothing else.
    fn seek(&mut self, x: T)
        requires
            old(self).wf(),
        ensures
            final(self).wf(),
            final(self).storage == old(self).storage,
            final(self).head == old(self).head,
            final(self).tail == old(self).tail,
            final(self).capacity == old(self).capacity,
            final(self).count == old(self).count,
            final(self).search_mode == old(self).search_mode,
            obeys_concrete_eq::<T>() ==> final(self)@ == old(self)@.search(x),
    {
        let ghost start = self@.search_start();
        let ghost mut j: int = start;
        match self.search_mode {
            SearchMode::Restart => {
                self.cursor = if self.count == 0 {
                    Position::After
                } else {
                    Position::At(self.head)
                };
            },
            SearchMode::Resume => {
                match self.cursor {
                    Position::Before => {
                        self.cursor = if self.count == 0 {
                            Position::After
                        } else {
                            Position::At(self.head)
                        };
                    },
                    Position::At(p) => {
                        self.cursor = if p == self.tail {
                            Position::After
                        } else {
                            Position::At(self.next(p))
                        };
                    },
                    Position::After => {},
                }
            },
        }
        let mut searching = true;
        while searching
            invariant
                self.wf(),
                self.storage == old(self).storage,
                self.head == old(self).head,
                self.tail == old(self).tail,
                self.capacity == old(self).capacity,
                self.count == old(self).count,
                self.search_mode == old(self).search_mode,
                0 <= start <= j <= self.count,
                start == old(self)@.search_start(),
                self@.cursor == self@.place_of(j),
                obeys_concrete_eq::<T>() ==> first_match(self.items(), x, start) == first_match(
                    self.items(),
                    x,
                    j,
                ),
                !searching ==> (obeys_concrete_eq::<T>() ==> first_match(self.items(), x, j) == j),
            decreases self.count - j + (if searching { 1int } else { 0int }),
        {
            match self.cursor {
                Position::At(p) => {
                    let here = self.element(p);
                    if self.membership_equals(x, here) {
                        searching = false;
                    } else {
                        self.cursor = if p == self.tail {
                            Position::After
                        } else {
                            Position::At(self.next(p))
                        };
                        proof {
                            j = j + 1;
                        }
                    }
                },
                _ => {
                    searching = false;
                },
            }
        }
    }
}

impl<T: Copy + PartialEq> Membership<T> for ArrayedList<T> {
    /// Whether a search for `x` would find an element: one that starts at
    /// the first element, or behind the cursor if searches resume. The
    /// cursor stays where it is.
    fn has(&self, x: T) -> (r: bool)
        ensures
            obeys_concrete_eq::<T>() ==> r == self@.has(x),
    {
        let from = self.search_start();
        let j = self.find_from(x, from);
        j < self.count
    }

    /// Whether `x` and `y` are equal.
    fn membership_equals(&self, x: T, y: T) -> (r: bool)
        ensures
            obeys_concrete_eq::<T>() ==> r == (x == y),
    {
        proof {
            reveal(obeys_concrete_eq);
        }
        x == y
    }
}

impl<T: Copy + PartialEq> Searchable<T> for ArrayedList<T> {
    /// The cursor goes to the first element equal to `x`, counted from the
    /// first element of the list, or from the element behind the cursor if
    /// searches resume; if there is no such element it goes behind the list.
    fn search(&mut self, x: T)
        ensures
            final(self).wf(),
            final(self)@.items == old(self)@.items,
            final(self)@.capacity == old(self)@.capacity,
            final(self)@.resume == old(self)@.resume,
            obeys_concrete_eq::<T>() ==> final(self)@ == old(self)@.search(x),
    {
        self.seek(x);
    }

    fn restart_searches(&mut self)
        ensures
            final(self).wf(),
            final(self)@ == old(self)@.restart_searches(),
    {
        self.search_mode = SearchMode::Restart;
    }

    fn resume_searches(&mut self)
        ensures
            final(self).wf(),
            final(self)@ == old(self)@.resume_searches(),
    {
        self.search_mode = SearchMode::Resume;
    }
}

impl<T: Copy + PartialEq> BasicDict<T> for ArrayedList<T> {
    /// What a search for `y` finds, or `ItemNotFoundError` if it finds
    /// nothing. The cursor is where it was before the call, whatever the
    /// outcome.
    fn obtain(&mut self, y: T) -> (r: Result<T, ItemNotFoundError>)
        ensures
            final(self).wf(),
            final(self)@ == old(self)@,
            obeys_concrete_eq::<T>() ==> (match r {
                Ok(found) => old(self)@.obtain(y) == Some(found),
                Err(_) => old(self)@.obtain(y) is None,
            }),
    {
        let saved = self.cursor;
        self.seek(y);
        let found = match self.cursor {
            Position::At(p) => Ok(self.element(p)),
            _ => Err(ItemNotFoundError),
        };
        self.cursor = saved;
        found
    }

    /// Adds `x` as `insert_item` does.
    fn insert(&mut self, x: T) -> (r: Result<(), ContainerError>)
        ensures
            final(self).wf(),
            final(self)@ == old(self)@.insert_item(x),
            r is Err <==> old(self)@.is_full(),
            r is Err ==> r->Err_0 == ContainerError::ContainerFull,
    {
        self.insert_item(x)
    }

    /// The element that a search for `x` finds leaves the list.
    ///
    /// In a list without elements the call fails with `ContainerEmpty`, and
    /// where the search finds nothing, with `ItemNotFound`; the list and its
    /// cursor are then as they were. If the cursor was on the element that
    /// leaves, it moves as in `delete_item`. If it was on another element,
    /// it goes to the first element of the list that equals that one, found
    /// by a search from the first element; how searches begin after the
    /// call is as it was before. A cursor in front of or behind the list
    /// stays there.
    fn delete(&mut self, x: T) -> (r: Result<(), ContainerError>)
        ensures
            final(self).wf(),
            final(self)@.capacity == old(self)@.capacity,
            final(self)@.resume == old(self)@.resume,
            r is Err ==> final(self)@ == old(self)@,
            r is Err ==> r->Err_0 == (if old(self)@.is_empty() {
                ContainerError::ContainerEmpty
            } else {
                ContainerError::ItemNotFound
            }),
            r is Ok ==> exists|j: int|
                0 <= j < old(self)@.items.len() && final(self)@.items == old(self)@.items.remove(j),
            old(self)@.is_empty() ==> r is Err,
            obeys_concrete_eq::<T>() ==> (r is Ok <==> old(self)@.delete_index(x) is Some),
            obeys_concrete_eq::<T>() ==> final(self)@ == old(self)@.delete(x),
    {
        if self.is_empty() {
            proof {
                lemma_first_match_least(self@.items, x, self@.search_start());
            }
            return Err(ContainerError::ContainerEmpty);
        }
        let saved = self.cursor;
        let saved_item = match saved {
            Position::At(p) => Some(self.element(p)),
            _ => None,
        };
        self.seek(x);
        match self.cursor {
            Position::At(q) => {
                let j = self.index_of(q);
                if saved == Position::At(q) {
                    let _ = self.delete_item();
                } else {
                    self.remove_at(j);
                    match saved_item {
                        None => {
                            self.cursor = saved;
                        },
                        Some(kept) => {
                            let mode = self.search_mode;
                            self.search_mode = SearchMode::Restart;
                            proof {
                                let c = old(self)@.cursor->At_0;
                                let rest = self.items();
                                let there = if c < j {
                                    c
                                } else {
                                    c - 1
                                };
                                assert(rest[there] == kept);
                                lemma_first_match_found(rest, kept, 0, there);
                            }
                            self.seek(kept);
                            self.search_mode = mode;
                        },
                    }
                }
                Ok(())
            },
            _ => {
                self.cursor = saved;
                Err(ContainerError::ItemNotFound)
            },
        }
    }
}

impl<T: Copy> ArrayedList<T> {
    /// What an iterator over the list `v` holds: the elements of `v` from
    /// the first to the last in slots 0 and up, and the given position.
    pub open spec fn snapshot_view(v: ListView<T>, position: int) -> IteratorView<T> {
        IteratorView {
            elements: v.items,
            head: 0,
            tail: if v.items.len() == 0 {
                0
            } else {
                v.items.len() - 1
            },
            num_el: v.items.len(),
            position,
        }
    }

    /// The elements of the list from the first to the last.
    fn elements(&self) -> (all: Vec<T>)
        requires
            self.wf(),
        ensures
            all@ == self.items(),
    {
        let mut all: Vec<T> = Vec::with_capacity(self.count);
        let mut i: usize = 0;
        while i < self.count
            invariant
                self.wf(),
                i <= self.count,
                all@ == self.items().subrange(0, i as int),
            decreases self.count - i,
        {
            let p = self.slot_of(i);
            all.push(self.element(p));
            i = i + 1;
            assert(all@ =~= self.items().subrange(0, i as int));
        }
        assert(self.items().subrange(0, self.count as int) =~= self.items());
        all
    }

    /// An iterator over the elements of the list as they are now, from the
    /// first to the last, that stands on the first.
    pub fn iterator(&self) -> (it: ArrayedListIterator<T>)
        requires
            self.wf(),
        ensures
            it@ == Self::snapshot_view(self@, 0),
    {
        let tail = if self.count == 0 {
            0
        } else {
            (self.count - 1) as i32
        };
        ArrayedListIterator::new(self.elements(), 0, tail, self.count as u32)
    }

    /// The element with index `index`, the first element having index 0,
    /// or `InvalidArgumentError` if the list has no element with that index.
    pub fn get_item_at_index(&self, index: u32) -> (r: Result<T, InvalidArgumentError>)
        requires
            self.wf(),
        ensures
            r is Ok <==> index < self@.items.len(),
            r is Ok ==> r->Ok_0 == self@.items[index as int],
    {
        if index as usize >= self.count {
            return Err(InvalidArgumentError);
        }
        let p = self.slot_of(index as usize);
        Ok(self.element(p))
    }
}

impl<T: Copy> CursorSaving<T> for ArrayedList<T> {
    open spec fn saving_valid(&self) -> bool {
        self.wf()
    }

    /// The elements of the list as they are now, with the place of the
    /// cursor.
    fn current_position(&self) -> (pos: CursorPosition<T>)
        ensures
            pos->ArrayedList_0@ == Self::snapshot_view(self@, self@.position_code()),
    {
        let mut it = self.iterator();
        match self.cursor {
            Position::Before => it.go_before(),
            Position::After => it.go_after(),
            Position::At(p) => {
                let i = self.index_of(p);
                let _ = it.set_position(i as i32);
            },
        }
        CursorPosition::ArrayedList(it)
    }

    /// The cursor goes to the place that `pos` holds, if that is in front
    /// of the list, behind it, or on an element that the list now holds;
    /// else the cursor stays.
    fn go_position(&mut self, pos: CursorPosition<T>)
        ensures
            final(self).wf(),
            final(self)@ == old(self)@.go_position(pos->ArrayedList_0@.position),
    {
        match pos {
            CursorPosition::ArrayedList(it) => {
                let code = it.position();
                if code == BEFORE_POS {
                    self.cursor = Position::Before;
                } else if code == AFTER_POS {
                    self.cursor = Position::After;
                } else if code >= 0 && (code as usize) < self.count {
                    let at = self.slot_of(code as usize);
                    self.cursor = Position::At(at);
                }
            },
        }
    }
}

} // verus!
