use vstd::prelude::*;

verus! {

/// Where a cursor stands in a list, counted in elements from the first one.
pub enum Place {
    /// In front of the first element.
    Before,
    /// Behind the last element.
    After,
    /// On the element with this index, the first element having index 0.
    At(int),
}

/// What a bounded list with a cursor is, apart from how it is stored:
/// its elements from first to last, the most it can hold, where its cursor
/// stands, and whether a search goes on from the cursor or starts at the
/// first element.
pub struct ListView<T> {
    pub items: Seq<T>,
    pub capacity: nat,
    pub cursor: Place,
    pub resume: bool,
}

/// The index of the first element of `items` at or behind index `from` that
/// equals `x`, or the length of `items` if there is none.
pub open spec fn first_match<T>(items: Seq<T>, x: T, from: int) -> int
    decreases items.len() - from,
{
    if from < 0 || from >= items.len() {
        items.len() as int
    } else if items[from] == x {
        from
    } else {
        first_match(items, x, from + 1)
    }
}

impl<T> ListView<T> {
    /// The list holds no more than its capacity, and a cursor that is on an
    /// element is on one that the list holds.
    pub open spec fn wf(self) -> bool {
        &&& self.items.len() <= self.capacity
        &&& match self.cursor {
            Place::At(i) => 0 <= i < self.items.len(),
            _ => true,
        }
    }

    /// The list without elements that `new` makes.
    pub open spec fn empty(capacity: nat) -> Self {
        ListView { items: Seq::empty(), capacity, cursor: Place::Before, resume: false }
    }

    pub open spec fn len(self) -> nat {
        self.items.len()
    }

    pub open spec fn is_empty(self) -> bool {
        self.items.len() == 0
    }

    pub open spec fn is_full(self) -> bool {
        self.items.len() == self.capacity
    }

    pub open spec fn before(self) -> bool {
        self.cursor is Before
    }

    pub open spec fn after(self) -> bool {
        self.cursor is After
    }

    pub open spec fn item_exists(self) -> bool {
        self.cursor is At
    }

    /// The element under the cursor, if the cursor is on one.
    pub open spec fn item(self) -> Option<T> {
        match self.cursor {
            Place::At(i) => Some(self.items[i]),
            _ => None,
        }
    }

    /// The same list with its cursor at `c`.
    pub open spec fn at(self, c: Place) -> Self {
        ListView { cursor: c, ..self }
    }

    /// The place of index `j`: the element with that index, or behind the
    /// last element if `j` is no index of the list.
    pub open spec fn place_of(self, j: int) -> Place {
        if 0 <= j < self.items.len() {
            Place::At(j)
        } else {
            Place::After
        }
    }

    pub open spec fn go_before(self) -> Self {
        self.at(Place::Before)
    }

    pub open spec fn go_after(self) -> Self {
        self.at(Place::After)
    }

    /// The cursor goes to the first element; in a list without elements it
    /// stays where it is.
    pub open spec fn go_first(self) -> Self {
        if self.is_empty() {
            self
        } else {
            self.at(Place::At(0))
        }
    }

    /// The cursor goes one step on: from in front of the list to the first
    /// element, from the last element to behind the list. Behind the list
    /// it stays.
    pub open spec fn go_forth(self) -> Self {
        match self.cursor {
            Place::Before => self.at(self.place_of(0)),
            Place::At(i) => self.at(self.place_of(i + 1)),
            Place::After => self,
        }
    }

    pub open spec fn restart_searches(self) -> Self {
        ListView { resume: false, ..self }
    }

    pub open spec fn resume_searches(self) -> Self {
        ListView { resume: true, ..self }
    }

    /// The index at which the next search begins to compare.
    pub open spec fn search_start(self) -> int {
        if !self.resume {
            0
        } else {
            match self.cursor {
                Place::Before => 0,
                Place::At(i) => i + 1,
                Place::After => self.items.len() as int,
            }
        }
    }

    /// The cursor goes to the first element equal to `x` at or behind the
    /// index where the search begins, or behind the list if there is none.
    pub open spec fn search(self, x: T) -> Self {
        self.at(self.place_of(first_match(self.items, x, self.search_start())))
    }

    /// Whether an element equal to `y` lies at or behind the index at
    /// which the next search begins.
    pub open spec fn reaches(self, y: T) -> bool {
        exists|k: int| self.search_start() <= k < self.items.len() && self.items[k] == y
    }

    /// What a search for `y` finds, the list itself staying as it is.
    pub open spec fn obtain(self, y: T) -> Option<T> {
        self.search(y).item()
    }

    /// Whether a search for `x` finds an element.
    pub open spec fn has(self, x: T) -> bool {
        self.search(x).item_exists()
    }

    /// `x` becomes the first element; the cursor stays on the element it was on.
    pub open spec fn insert_first(self, x: T) -> Self {
        if self.is_full() {
            self
        } else {
            ListView {
                items: seq![x] + self.items,
                cursor: match self.cursor {
                    Place::At(i) => Place::At(i + 1),
                    c => c,
                },
                ..self
            }
        }
    }

    /// `x` becomes the last element; the cursor stays where it was.
    pub open spec fn insert_last(self, x: T) -> Self {
        if self.is_full() {
            self
        } else {
            ListView { items: self.items.push(x), ..self }
        }
    }

    /// The first element leaves. A cursor on it goes to the element that
    /// followed it, a cursor on another element stays on that element, and
    /// in a list that is left without elements the cursor stands in front.
    pub open spec fn delete_first(self) -> Self {
        if self.is_empty() {
            self
        } else {
            ListView {
                items: self.items.subrange(1, self.items.len() as int),
                cursor: if self.items.len() == 1 {
                    Place::Before
                } else {
                    match self.cursor {
                        Place::At(i) => if i == 0 {
                            Place::At(0)
                        } else {
                            Place::At(i - 1)
                        },
                        c => c,
                    }
                },
                ..self
            }
        }
    }

    /// The last element leaves. A cursor on it goes to the element in front
    /// of it, and in a list that is left without elements the cursor stands
    /// in front.
    pub open spec fn delete_last(self) -> Self {
        if self.is_empty() {
            self
        } else {
            ListView {
                items: self.items.subrange(0, self.items.len() - 1),
                cursor: if self.items.len() == 1 {
                    Place::Before
                } else {
                    match self.cursor {
                        Place::At(i) => if i == self.items.len() - 1 {
                            Place::At(i - 1)
                        } else {
                            Place::At(i)
                        },
                        c => c,
                    }
                },
                ..self
            }
        }
    }

    /// The index at which `insert_item` puts a new element: behind the
    /// element under the cursor, first with the cursor in front of the list,
    /// last with the cursor behind it.
    pub open spec fn insert_index(self) -> int {
        match self.cursor {
            Place::Before => 0,
            Place::At(i) => i + 1,
            Place::After => self.items.len() as int,
        }
    }

    /// `x` goes in next to the cursor, and the cursor goes onto it.
    pub open spec fn insert_item(self, x: T) -> Self {
        if self.is_full() {
            self
        } else {
            ListView {
                items: self.items.insert(self.insert_index(), x),
                cursor: Place::At(self.insert_index()),
                ..self
            }
        }
    }

    /// The list without the element with index `i`, the cursor then being on
    /// the element that followed it, behind the list if none did, and in
    /// front of a list that is left without elements.
    pub open spec fn remove_under_cursor(self, i: int) -> Self {
        ListView {
            items: self.items.remove(i),
            cursor: if self.items.len() == 1 {
                Place::Before
            } else if i == self.items.len() - 1 {
                Place::After
            } else {
                Place::At(i)
            },
            ..self
        }
    }

    /// The element under the cursor leaves.
    pub open spec fn delete_item(self) -> Self {
        match self.cursor {
            Place::At(i) => self.remove_under_cursor(i),
            _ => self,
        }
    }

    /// The index of the element that `delete(x)` removes, if it removes one.
    pub open spec fn delete_index(self, x: T) -> Option<int> {
        match self.search(x).cursor {
            Place::At(j) => Some(j),
            _ => None,
        }
    }

    /// The element that a search for `x` finds leaves. If the cursor was on
    /// it, the cursor moves as in `delete_item`. If the cursor was on another
    /// element, it goes to the first element of the new list that equals
    /// that one. A cursor in front of or behind the list stays there.
    pub open spec fn delete(self, x: T) -> Self {
        match self.delete_index(x) {
            Some(j) => {
                if self.cursor == Place::At(j) {
                    self.remove_under_cursor(j)
                } else {
                    let rest = self.items.remove(j);
                    ListView {
                        items: rest,
                        cursor: match self.cursor {
                            Place::At(c) => Place::At(first_match(rest, self.items[c], 0)),
                            c => c,
                        },
                        ..self
                    }
                }
            },
            None => self,
        }
    }

    /// The cursor as a number: -2 in front of the list, -1 behind it, and
    /// on an element the index of that element.
    pub open spec fn position_code(self) -> int {
        match self.cursor {
            Place::Before => -2,
            Place::After => -1,
            Place::At(i) => i,
        }
    }

    /// The cursor goes where `code` says, if that is in front of the list,
    /// behind it, or on an element that the list holds; else it stays.
    pub open spec fn go_position(self, code: int) -> Self {
        if code == -2 {
            self.at(Place::Before)
        } else if code == -1 {
            self.at(Place::After)
        } else if 0 <= code < self.items.len() {
            self.at(Place::At(code))
        } else {
            self
        }
    }

    /// All elements leave, and the cursor stands in front of the list. The
    /// capacity and the way searches begin stay as they are.
    pub open spec fn clear(self) -> Self {
        ListView { items: Seq::empty(), cursor: Place::Before, ..self }
    }
}

/// `first_match` gives the least index at or behind `from` whose element
/// equals `x`, and the length of `items` exactly if there is no such index.
pub proof fn lemma_first_match_least<T>(items: Seq<T>, x: T, from: int)
    requires
        0 <= from <= items.len(),
    ensures
        from <= first_match(items, x, from) <= items.len(),
        first_match(items, x, from) < items.len() ==> items[first_match(items, x, from)] == x,
        forall|k: int| from <= k < first_match(items, x, from) ==> items[k] != x,
    decreases items.len() - from,
{
    if from < items.len() && items[from] != x {
        lemma_first_match_least(items, x, from + 1);
    }
}

/// An element equal to `x` at index `k` bounds what a search from any index
/// up to `k` finds.
pub proof fn lemma_first_match_found<T>(items: Seq<T>, x: T, from: int, k: int)
    requires
        0 <= from <= k < items.len(),
        items[k] == x,
    ensures
        from <= first_match(items, x, from) <= k,
{
    lemma_first_match_least(items, x, from);
}

} // verus!
