//! What holds of every bounded list with a cursor, stated and proved over
//! `ListView`. Each operation of `ArrayedList` ensures that the view after
//! the call is the view before it under the operation of the same name
//! here, so these laws hold of the executable list too; for `search`,
//! `has`, `obtain` and `delete` they do so where `==` on the element type
//! is equality of values (`obeys_concrete_eq`), which is what those
//! operations compare with.

use vstd::prelude::*;
use crate::lists::list_view::{first_match, lemma_first_match_found, lemma_first_match_least, ListView, Place};

verus! {

/// An operation that adds an element to a list or takes one out.
pub enum Op<T> {
    InsertFirst(T),
    InsertLast(T),
    InsertItem(T),
    DeleteFirst,
    DeleteLast,
    DeleteItem,
    Delete(T),
}

impl<T> Op<T> {
    pub open spec fn is_insert(self) -> bool {
        self is InsertFirst || self is InsertLast || self is InsertItem
    }
}

impl<T> ListView<T> {
    /// The list after `op`; an operation that fails leaves it as it is.
    pub open spec fn apply(self, op: Op<T>) -> Self {
        match op {
            Op::InsertFirst(x) => self.insert_first(x),
            Op::InsertLast(x) => self.insert_last(x),
            Op::InsertItem(x) => self.insert_item(x),
            Op::DeleteFirst => self.delete_first(),
            Op::DeleteLast => self.delete_last(),
            Op::DeleteItem => self.delete_item(),
            Op::Delete(x) => self.delete(x),
        }
    }

    /// Whether `op` succeeds on the list.
    pub open spec fn succeeds(self, op: Op<T>) -> bool {
        match op {
            Op::InsertFirst(_) | Op::InsertLast(_) | Op::InsertItem(_) => !self.is_full(),
            Op::DeleteFirst | Op::DeleteLast => !self.is_empty(),
            Op::DeleteItem => self.item_exists(),
            Op::Delete(x) => self.delete_index(x) is Some,
        }
    }

    /// The list after the operations `ops`, one after the other.
    pub open spec fn run(self, ops: Seq<Op<T>>) -> Self
        decreases ops.len(),
    {
        if ops.len() == 0 {
            self
        } else {
            self.run(ops.drop_last()).apply(ops.last())
        }
    }

    /// How many of the operations `ops`, run one after the other, are
    /// inserts that succeed.
    pub open spec fn inserted(self, ops: Seq<Op<T>>) -> nat
        decreases ops.len(),
    {
        if ops.len() == 0 {
            0
        } else {
            let counted = self.inserted(ops.drop_last());
            if ops.last().is_insert() && self.run(ops.drop_last()).succeeds(ops.last()) {
                counted + 1
            } else {
                counted
            }
        }
    }

    /// How many of the operations `ops`, run one after the other, are
    /// deletes that succeed.
    pub open spec fn deleted(self, ops: Seq<Op<T>>) -> nat
        decreases ops.len(),
    {
        if ops.len() == 0 {
            0
        } else {
            let counted = self.deleted(ops.drop_last());
            if !ops.last().is_insert() && self.run(ops.drop_last()).succeeds(ops.last()) {
                counted + 1
            } else {
                counted
            }
        }
    }

    /// The list after `n` steps forward of its cursor.
    pub open spec fn forth(self, n: nat) -> Self
        decreases n,
    {
        if n == 0 {
            self
        } else {
            self.forth((n - 1) as nat).go_forth()
        }
    }
}

/// A delete by value keeps a well-formed list well-formed.
pub proof fn lemma_delete_wf<T>(v: ListView<T>, x: T)
    requires
        v.wf(),
    ensures
        v.delete(x).wf(),
        v.delete(x).capacity == v.capacity,
        v.delete(x).resume == v.resume,
        v.delete(x).len() == (if v.delete_index(x) is Some {
            v.len() - 1
        } else {
            v.len() as int
        }),
{
    match v.delete_index(x) {
        Some(j) => {
            if v.cursor != Place::At(j) {
                if let Place::At(c) = v.cursor {
                    let rest = v.items.remove(j);
                    let there = if c < j {
                        c
                    } else {
                        c - 1
                    };
                    assert(rest[there] == v.items[c]);
                    lemma_first_match_found(rest, v.items[c], 0, there);
                }
            }
        },
        None => {},
    }
}

/// Every operation keeps a well-formed list well-formed and its capacity
/// as it is. One that succeeds changes the number of elements by one, and
/// one that fails changes nothing.
pub proof fn lemma_apply<T>(v: ListView<T>, op: Op<T>)
    requires
        v.wf(),
    ensures
        v.apply(op).wf(),
        v.apply(op).capacity == v.capacity,
        v.succeeds(op) && op.is_insert() ==> v.apply(op).len() == v.len() + 1,
        v.succeeds(op) && !op.is_insert() ==> v.apply(op).len() == v.len() - 1,
        !v.succeeds(op) ==> v.apply(op) == v,
{
    match op {
        Op::Delete(x) => {
            lemma_delete_wf(v, x);
        },
        _ => {},
    }
}

/// After any operations, run one after the other on a list, the number of
/// its elements is the number it had, plus the inserts that succeeded,
/// minus the deletes that succeeded; it is never more than the capacity,
/// which stays as it was, and the list is full exactly when it has as many
/// elements as its capacity.
pub proof fn lemma_count_is_inserts_minus_deletes<T>(v: ListView<T>, ops: Seq<Op<T>>)
    requires
        v.wf(),
    ensures
        v.run(ops).wf(),
        v.run(ops).capacity == v.capacity,
        v.run(ops).len() == v.len() + v.inserted(ops) - v.deleted(ops),
        v.run(ops).len() <= v.capacity,
        v.run(ops).is_full() <==> v.run(ops).len() == v.capacity,
    decreases ops.len(),
{
    if ops.len() > 0 {
        lemma_count_is_inserts_minus_deletes(v, ops.drop_last());
        lemma_apply(v.run(ops.drop_last()), ops.last());
    }
}

/// `obtain` finds `y` exactly if an element equal to `y` lies at or behind
/// the index at which searches begin, and what it gives back is then `y`.
pub proof fn lemma_obtain_reaches<T>(v: ListView<T>, y: T)
    requires
        v.wf(),
    ensures
        v.obtain(y) == (if v.reaches(y) {
            Some(y)
        } else {
            None
        }),
{
    lemma_first_match_least(v.items, y, v.search_start());
    let found = first_match(v.items, y, v.search_start());
    if found < v.len() {
        assert(v.search_start() <= found < v.items.len() && v.items[found] == y);
    }
}

/// An element that one of the three inserts has just put in is found by
/// `obtain`, which gives back that very value, provided the search reaches
/// an element equal to it; and a search that starts at the first element
/// always does.
pub proof fn lemma_obtain_after_insert<T>(v: ListView<T>, x: T)
    requires
        v.wf(),
        !v.is_full(),
    ensures
        v.insert_first(x).reaches(x) ==> v.insert_first(x).obtain(x) == Some(x),
        v.insert_last(x).reaches(x) ==> v.insert_last(x).obtain(x) == Some(x),
        v.insert_item(x).reaches(x) ==> v.insert_item(x).obtain(x) == Some(x),
        !v.resume ==> v.insert_first(x).reaches(x) && v.insert_last(x).reaches(x)
            && v.insert_item(x).reaches(x),
        v.resume && !v.after() ==> v.insert_last(x).reaches(x),
        v.resume && v.before() ==> v.insert_first(x).reaches(x),
{
    let a = v.insert_first(x);
    let b = v.insert_last(x);
    let c = v.insert_item(x);
    lemma_obtain_reaches(a, x);
    lemma_obtain_reaches(b, x);
    lemma_obtain_reaches(c, x);
    if !v.resume || v.before() {
        assert(a.search_start() <= 0 < a.items.len() && a.items[0] == x);
    }
    if !v.resume || !v.after() {
        let last = v.len() as int;
        assert(b.search_start() <= last < b.items.len() && b.items[last] == x);
    }
    if !v.resume {
        let k = v.insert_index();
        assert(c.search_start() <= k < c.items.len() && c.items[k] == x);
    }
}

/// A walk that starts in front of the list and steps forward is on the
/// element with index `k` after `k + 1` steps, for every index `k` of the
/// list, and that leaves the list as it is.
pub proof fn lemma_walk_visits<T>(v: ListView<T>, k: int)
    requires
        v.wf(),
        0 <= k < v.len(),
    ensures
        v.go_before().forth((k + 1) as nat) == v.at(Place::At(k)),
        v.go_before().forth((k + 1) as nat).item() == Some(v.items[k]),
    decreases k,
{
    reveal_with_fuel(ListView::forth, 2);
    if k > 0 {
        lemma_walk_visits(v, k - 1);
    }
}

/// A walk that starts in front of the list and steps forward until it is
/// behind the list visits each element once, from the first to the last:
/// it is on no element before its first step, on the elements with indices
/// 0, 1, and so on after that, and behind the list for the first time
/// after one step more than the list has elements.
pub proof fn lemma_walk_visits_all_in_order<T>(v: ListView<T>)
    requires
        v.wf(),
    ensures
        !v.go_before().item_exists(),
        forall|k: int|
            0 <= k < v.len() ==> #[trigger] v.go_before().forth((k + 1) as nat) == v.at(
                Place::At(k),
            ),
        forall|n: nat| n <= v.len() ==> !(#[trigger] v.go_before().forth(n)).after(),
        v.go_before().forth(v.len() + 1) == v.at(Place::After),
{
    assert forall|k: int| 0 <= k < v.len() implies #[trigger] v.go_before().forth((k + 1) as nat)
        == v.at(Place::At(k)) by {
        lemma_walk_visits(v, k);
    }
    assert forall|n: nat| n <= v.len() implies !(#[trigger] v.go_before().forth(n)).after() by {
        if n > 0 {
            lemma_walk_visits(v, n - 1);
        }
    }
    reveal_with_fuel(ListView::forth, 2);
    if v.len() > 0 {
        lemma_walk_visits(v, v.len() - 1);
    }
}

/// After `delete_item` has taken out the element under the cursor, the
/// cursor is on an element exactly if an element followed the one that
/// left, and it is then on that element.
pub proof fn lemma_delete_item_cursor<T>(v: ListView<T>, i: int)
    requires
        v.wf(),
        v.cursor == Place::At(i),
    ensures
        v.delete_item().wf(),
        v.delete_item().item_exists() <==> i + 1 < v.len(),
        i + 1 < v.len() ==> v.delete_item().item() == Some(v.items[i + 1]),
        v.delete_item().len() == v.len() - 1,
{
}

/// A cleared list is empty, and if its capacity is not zero, an element
/// can be put into it, however full the list was.
pub proof fn lemma_clear_then_insert<T>(v: ListView<T>, x: T)
    requires
        v.wf(),
    ensures
        v.clear().wf(),
        v.clear().is_empty(),
        v.capacity > 0 ==> !v.clear().is_full(),
        v.capacity > 0 ==> v.clear().insert_first(x).items == seq![x],
{
    assert(seq![x] + Seq::<T>::empty() =~= seq![x]);
}

/// Taking out by value an element that the cursor is not on leaves the
/// cursor on a value equal to the one it was on. `obtain` for that value
/// gives what it gave before, provided a search reaches such a value after
/// the call exactly if one did before; and where searches start at the
/// first element, one does both times.
pub proof fn lemma_delete_elsewhere_keeps_obtain<T>(v: ListView<T>, x: T)
    requires
        v.wf(),
        v.item_exists(),
        v.delete_index(x) is Some,
        v.delete_index(x) != Some(v.cursor->At_0),
    ensures
        v.delete(x).wf(),
        v.delete(x).item() == v.item(),
        v.delete(x).reaches(v.item()->Some_0) == v.reaches(v.item()->Some_0) ==> v.delete(
            x,
        ).obtain(v.item()->Some_0) == v.obtain(v.item()->Some_0),
        !v.resume ==> v.reaches(v.item()->Some_0) && v.delete(x).reaches(v.item()->Some_0),
        !v.resume ==> v.delete(x).obtain(v.item()->Some_0) == v.item(),
{
    let c = v.cursor->At_0;
    let j = v.delete_index(x)->Some_0;
    let kept = v.items[c];
    let rest = v.items.remove(j);
    let there = if c < j {
        c
    } else {
        c - 1
    };
    assert(rest[there] == kept);
    lemma_first_match_found(rest, kept, 0, there);
    lemma_first_match_least(rest, kept, 0);
    lemma_delete_wf(v, x);
    lemma_obtain_reaches(v, kept);
    lemma_obtain_reaches(v.delete(x), kept);
    if !v.resume {
        assert(v.search_start() <= c < v.items.len() && v.items[c] == kept);
        assert(v.delete(x).search_start() <= there < rest.len() && rest[there] == kept);
    }
}

/// Going to a position that was just taken leaves the list as it is.
pub proof fn lemma_go_to_current_position<T>(v: ListView<T>)
    requires
        v.wf(),
    ensures
        v.go_position(v.position_code()) == v,
{
}

} // verus!
