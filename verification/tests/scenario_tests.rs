use kyles_algorithm_crate::base::basic_dict::BasicDict;
use kyles_algorithm_crate::base::container::Container;
use kyles_algorithm_crate::base::cursor::Cursor;
use kyles_algorithm_crate::base::cursor_position::CursorPosition;
use kyles_algorithm_crate::base::cursor_saving::CursorSaving;
use kyles_algorithm_crate::base::dispenser::Dispenser;
use kyles_algorithm_crate::base::linear_iterator::LinearIterator;
use kyles_algorithm_crate::base::membership::Membership;
use kyles_algorithm_crate::base::searchable::Searchable;
use kyles_algorithm_crate::custom_errors::after_the_end_error::AfterTheEndError;
use kyles_algorithm_crate::custom_errors::before_the_start_error::BeforeTheStartError;
use kyles_algorithm_crate::custom_errors::container_empty_error::ContainerEmptyError;
use kyles_algorithm_crate::custom_errors::container_error::ContainerError;
use kyles_algorithm_crate::custom_errors::container_full_error::ContainerFullError;
use kyles_algorithm_crate::custom_errors::duplicate_items_error::DuplicateItemsError;
use kyles_algorithm_crate::custom_errors::invalid_argument_error::InvalidArgumentError;
use kyles_algorithm_crate::custom_errors::invalid_state_error::InvalidStateError;
use kyles_algorithm_crate::custom_errors::item_not_found_error::ItemNotFoundError;
use kyles_algorithm_crate::custom_errors::no_current_item_error::NoCurrentItemError;
use kyles_algorithm_crate::lists::arrayed_list::{ArrayedList, MAX_CAPACITY};
use kyles_algorithm_crate::lists::simple_list::SimpleList;

/// The elements of `list` from the first to the last.
fn contents(list: &ArrayedList<i32>) -> Vec<i32> {
    let mut all = Vec::new();
    let mut index = 0;
    while let Ok(x) = list.get_item_at_index(index) {
        all.push(x);
        index += 1;
    }
    all
}

/// The cursor of `list` as a number: -2 in front of the list, -1 behind it,
/// else the index of the element it is on.
fn code(list: &ArrayedList<i32>) -> i32 {
    let CursorPosition::ArrayedList(it) = list.current_position();
    it.position()
}

fn list_of(capacity: usize, items: &[i32]) -> ArrayedList<i32> {
    let mut list = ArrayedList::new(capacity);
    for x in items {
        list.insert_last(*x).expect("room for the element");
    }
    list
}

#[test]
fn fill_then_make_room_at_the_front() {
    let mut list: ArrayedList<i32> = ArrayedList::new(3);
    assert_eq!(list.insert_last(1), Ok(()));
    assert_eq!(list.insert_last(2), Ok(()));
    assert_eq!(list.insert_last(3), Ok(()));
    assert!(list.is_full());
    assert_eq!(list.insert_last(4), Err(ContainerFullError));
    assert_eq!(contents(&list), vec![1, 2, 3]);
    assert_eq!(list.delete_first(), Ok(()));
    assert_eq!(list.insert_last(4), Ok(()));
    assert_eq!(list.last_item(), Ok(4));
    assert_eq!(contents(&list), vec![2, 3, 4]);
}

#[test]
fn searches_restart_or_resume() {
    let mut list: ArrayedList<i32> = ArrayedList::new(3);
    list.search(1);
    assert_eq!(list.item(), Err(NoCurrentItemError));
    assert!(list.after());

    list.insert_last(1).unwrap();
    list.insert_last(2).unwrap();
    list.insert_last(1).unwrap();
    list.go_before();
    list.search(2);
    assert_eq!(list.item(), Ok(2));
    assert_eq!(code(&list), 1);

    // restarting: the first 1, every time
    list.restart_searches();
    list.search(1);
    assert_eq!(code(&list), 0);
    list.search(1);
    assert_eq!(code(&list), 0);

    // resuming: the second 1, and then nothing
    list.resume_searches();
    list.search(1);
    assert_eq!(code(&list), 2);
    assert_eq!(list.item(), Ok(1));
    list.search(1);
    assert!(list.after());
    list.search(1);
    assert!(list.after());
}

#[test]
fn count_follows_inserts_and_deletes() {
    let mut list: ArrayedList<i32> = ArrayedList::new(4);
    let mut expected = 0;
    let steps: [(bool, i32); 12] = [
        (true, 1), (true, 2), (false, 0), (true, 3), (true, 4), (true, 5), (true, 6),
        (false, 0), (false, 0), (false, 0), (false, 0), (false, 0),
    ];
    for (insert, x) in steps {
        let done = if insert {
            list.insert_first(x).is_ok()
        } else {
            list.delete_last().is_ok()
        };
        if done {
            expected += if insert { 1 } else { -1 };
        }
        assert_eq!(contents(&list).len() as i32, expected);
        assert_eq!(list.is_full(), expected == 4);
        assert_eq!(list.is_empty(), expected == 0);
    }
    assert_eq!(expected, 0);
}

#[test]
fn obtain_gives_what_was_put_in_and_keeps_the_cursor() {
    let mut list = list_of(5, &[10, 20, 30]);
    list.go_first().unwrap();
    list.go_forth().unwrap();
    assert_eq!(list.item(), Ok(20));

    list.insert_first(5).unwrap();
    assert_eq!(list.obtain(5), Ok(5));
    assert_eq!(list.item(), Ok(20));

    list.insert_last(40).unwrap();
    assert_eq!(list.obtain(40), Ok(40));
    assert_eq!(list.item(), Ok(20));

    assert_eq!(list.obtain(99), Err(ItemNotFoundError));
    assert_eq!(list.item(), Ok(20));

    list.go_after();
    assert_eq!(list.obtain(10), Ok(10));
    assert!(list.after());
    list.go_before();
    assert_eq!(list.obtain(99), Err(ItemNotFoundError));
    assert!(list.before());
}

#[test]
fn obtain_with_resumed_searches_looks_behind_the_cursor_only() {
    let mut list = list_of(4, &[1, 2, 3]);
    list.resume_searches();
    list.go_first().unwrap();
    list.go_forth().unwrap();
    assert_eq!(list.obtain(3), Ok(3));
    assert_eq!(list.obtain(1), Err(ItemNotFoundError));
    assert_eq!(list.obtain(2), Err(ItemNotFoundError));
    assert!(list.has(3));
    assert!(!list.has(1));
    assert_eq!(list.item(), Ok(2));

    list.insert_item(9).unwrap();
    assert_eq!(list.item(), Ok(9));
    assert_eq!(list.obtain(9), Err(ItemNotFoundError));
    list.restart_searches();
    assert_eq!(list.obtain(9), Ok(9));
}

#[test]
fn a_walk_visits_every_element_in_order() {
    let mut list: ArrayedList<i32> = ArrayedList::new(4);
    // make the elements wrap round the end of the storage
    list.insert_last(0).unwrap();
    list.insert_last(0).unwrap();
    list.insert_last(1).unwrap();
    list.delete_first().unwrap();
    list.delete_first().unwrap();
    list.insert_last(2).unwrap();
    list.insert_last(3).unwrap();
    list.insert_last(4).unwrap();
    assert!(list.is_full());

    let mut seen = Vec::new();
    list.go_before();
    list.go_forth().unwrap();
    while !list.after() {
        seen.push(list.item().unwrap());
        list.go_forth().unwrap();
    }
    assert_eq!(seen, vec![1, 2, 3, 4]);
    assert_eq!(list.go_forth(), Err(AfterTheEndError));
    assert!(list.after());
}

#[test]
fn delete_item_moves_the_cursor_on() {
    let mut list = list_of(3, &[1, 2, 3]);
    list.go_first().unwrap();
    assert_eq!(list.delete_item(), Ok(()));
    assert!(list.item_exists());
    assert_eq!(list.item(), Ok(2));
    list.go_forth().unwrap();
    assert_eq!(list.delete_item(), Ok(()));
    assert!(!list.item_exists());
    assert!(list.after());
    assert_eq!(list.delete_item(), Err(NoCurrentItemError));
    assert_eq!(contents(&list), vec![2]);
    list.go_first().unwrap();
    assert_eq!(list.delete_item(), Ok(()));
    assert!(list.before());
    assert!(list.is_empty());
    list.go_before();
    assert_eq!(list.delete_item(), Err(NoCurrentItemError));
}

#[test]
fn clear_makes_room_again() {
    let mut list = list_of(2, &[8, 9]);
    list.resume_searches();
    list.go_first().unwrap();
    assert!(list.is_full());
    list.clear();
    assert!(list.is_empty());
    assert!(!list.is_full());
    assert!(list.before());
    assert_eq!(list.capacity(), 2);
    assert_eq!(list.insert_first(1), Ok(()));
    assert_eq!(contents(&list), vec![1]);
    // searches still resume
    list.go_first().unwrap();
    list.search(1);
    assert!(list.after());
}

#[test]
fn a_list_of_capacity_zero_is_empty_and_full() {
    let mut list: ArrayedList<i32> = ArrayedList::new(0);
    assert!(list.is_empty());
    assert!(list.is_full());
    assert_eq!(list.insert_first(1), Err(ContainerFullError));
    assert_eq!(list.insert_last(1), Err(ContainerFullError));
    assert_eq!(list.insert_item(1), Err(ContainerError::ContainerFull));
    assert_eq!(list.delete_first(), Err(ContainerEmptyError));
    assert_eq!(list.delete(1), Err(ContainerError::ContainerEmpty));
    list.clear();
    assert_eq!(list.insert_first(1), Err(ContainerFullError));
    assert_eq!(list.go_forth(), Ok(()));
    assert!(list.after());
    list.search(3);
    assert!(list.after());
}

#[test]
fn delete_elsewhere_keeps_the_cursor_on_its_value() {
    let mut list = list_of(5, &[1, 2, 3, 4]);
    list.go_first().unwrap();
    list.go_forth().unwrap();
    list.go_forth().unwrap();
    assert_eq!(list.item(), Ok(3));
    let before = list.obtain(3);

    assert_eq!(list.delete(1), Ok(()));
    assert_eq!(list.item(), Ok(3));
    assert_eq!(list.obtain(3), before);
    assert_eq!(code(&list), 1);

    assert_eq!(list.delete(4), Ok(()));
    assert_eq!(list.item(), Ok(3));
    assert_eq!(list.obtain(3), before);
    assert_eq!(contents(&list), vec![2, 3]);
}

#[test]
fn delete_elsewhere_with_resumed_searches_can_change_obtain() {
    let mut list = list_of(3, &[5, 5]);
    list.resume_searches();
    list.go_first().unwrap();
    // a search that resumes finds the second 5 behind the cursor
    assert_eq!(list.obtain(5), Ok(5));
    assert_eq!(list.delete(5), Ok(()));
    assert_eq!(contents(&list), vec![5]);
    assert_eq!(list.item(), Ok(5));
    assert_eq!(code(&list), 0);
    // and now nothing lies behind the cursor
    assert_eq!(list.obtain(5), Err(ItemNotFoundError));
}

#[test]
fn delete_under_the_cursor_moves_it_on() {
    let mut list = list_of(5, &[1, 2, 3]);
    list.go_first().unwrap();
    list.go_forth().unwrap();
    assert_eq!(list.delete(2), Ok(()));
    assert_eq!(list.item(), Ok(3));
    assert_eq!(list.delete(3), Ok(()));
    assert!(list.after());
    assert_eq!(contents(&list), vec![1]);
    list.go_first().unwrap();
    assert_eq!(list.delete(1), Ok(()));
    assert!(list.before());
    assert!(list.is_empty());
}

#[test]
fn delete_goes_to_the_first_equal_of_the_cursor_value() {
    let mut list = list_of(5, &[7, 8, 7]);
    list.go_first().unwrap();
    list.go_forth().unwrap();
    list.go_forth().unwrap();
    assert_eq!(code(&list), 2);
    assert_eq!(list.delete(8), Ok(()));
    // the cursor was on the second 7 and is now on the first
    assert_eq!(code(&list), 0);
    assert_eq!(list.item(), Ok(7));
    assert_eq!(contents(&list), vec![7, 7]);
}

#[test]
fn delete_fails_without_moving_the_cursor() {
    let mut list = list_of(3, &[1, 2]);
    list.go_first().unwrap();
    list.go_forth().unwrap();
    assert_eq!(list.delete(9), Err(ContainerError::ItemNotFound));
    assert_eq!(list.item(), Ok(2));
    list.go_before();
    assert_eq!(list.delete(9), Err(ContainerError::ItemNotFound));
    assert!(list.before());
    list.go_after();
    assert_eq!(list.delete(1), Ok(()));
    assert!(list.after());
    assert_eq!(contents(&list), vec![2]);

    let mut empty: ArrayedList<i32> = ArrayedList::new(3);
    assert_eq!(empty.delete(1), Err(ContainerError::ContainerEmpty));
    assert!(empty.before());
}

#[test]
fn delete_keeps_how_searches_begin() {
    let mut list = list_of(5, &[1, 2, 1, 3]);
    list.resume_searches();
    list.go_first().unwrap();
    // resumed: the search for 1 starts behind the cursor and finds the second 1
    assert_eq!(list.delete(1), Ok(()));
    assert_eq!(contents(&list), vec![1, 2, 3]);
    assert_eq!(list.item(), Ok(1));
    // searches still resume: nothing equal to 1 lies behind the cursor
    list.search(1);
    assert!(list.after());
}

#[test]
fn insert_item_goes_next_to_the_cursor() {
    let mut list: ArrayedList<i32> = ArrayedList::new(6);
    list.insert_item(3).unwrap();
    assert_eq!(list.item(), Ok(3));
    list.go_before();
    list.insert_item(1).unwrap();
    assert_eq!(list.item(), Ok(1));
    assert_eq!(contents(&list), vec![1, 3]);
    list.insert_item(2).unwrap();
    assert_eq!(list.item(), Ok(2));
    assert_eq!(contents(&list), vec![1, 2, 3]);
    list.go_after();
    list.insert_item(5).unwrap();
    assert_eq!(list.item(), Ok(5));
    assert_eq!(contents(&list), vec![1, 2, 3, 5]);
    list.go_first().unwrap();
    list.go_forth().unwrap();
    list.go_forth().unwrap();
    list.insert(4).unwrap();
    assert_eq!(list.item(), Ok(4));
    assert_eq!(contents(&list), vec![1, 2, 3, 4, 5]);
    list.go_before();
    list.insert(0).unwrap();
    assert_eq!(contents(&list), vec![0, 1, 2, 3, 4, 5]);
    assert_eq!(list.insert(9), Err(ContainerError::ContainerFull));
    assert_eq!(list.item(), Ok(0));
    assert_eq!(contents(&list), vec![0, 1, 2, 3, 4, 5]);
}

#[test]
fn inserts_and_deletes_in_the_middle_of_a_wrapped_list() {
    let mut list: ArrayedList<i32> = ArrayedList::new(5);
    for x in [0, 0, 0, 1, 2] {
        list.insert_last(x).unwrap();
    }
    for _ in 0..3 {
        list.delete_first().unwrap();
    }
    list.insert_last(4).unwrap();
    list.insert_last(5).unwrap();
    assert_eq!(contents(&list), vec![1, 2, 4, 5]);
    list.go_first().unwrap();
    list.go_forth().unwrap();
    list.insert_item(3).unwrap();
    assert_eq!(contents(&list), vec![1, 2, 3, 4, 5]);
    assert_eq!(list.item(), Ok(3));
    assert_eq!(list.first_item(), Ok(1));
    assert_eq!(list.last_item(), Ok(5));
    assert_eq!(list.delete(2), Ok(()));
    assert_eq!(contents(&list), vec![1, 3, 4, 5]);
    assert_eq!(list.item(), Ok(3));
    assert_eq!(list.delete_item(), Ok(()));
    assert_eq!(contents(&list), vec![1, 4, 5]);
    assert_eq!(list.item(), Ok(4));
    assert_eq!(list.delete(5), Ok(()));
    assert_eq!(contents(&list), vec![1, 4]);
    assert_eq!(list.last_item(), Ok(4));
}

#[test]
fn ends_move_the_cursor_only_off_what_leaves() {
    let mut list = list_of(4, &[1, 2, 3]);
    list.go_first().unwrap();
    list.insert_first(0).unwrap();
    assert_eq!(list.item(), Ok(1));
    assert_eq!(code(&list), 1);
    list.delete_first().unwrap();
    assert_eq!(list.item(), Ok(1));
    list.delete_first().unwrap();
    assert_eq!(list.item(), Ok(2));
    list.go_forth().unwrap();
    assert_eq!(list.item(), Ok(3));
    list.delete_last().unwrap();
    assert_eq!(list.item(), Ok(2));
    list.go_after();
    list.delete_last().unwrap();
    assert!(list.before());
    assert!(list.is_empty());
}

#[test]
fn go_first_on_an_empty_list_fails_and_moves_nothing() {
    let mut list: ArrayedList<i32> = ArrayedList::new(2);
    assert!(list.before());
    assert_eq!(list.go_first(), Err(ContainerEmptyError));
    assert!(list.before());
    list.go_after();
    assert_eq!(list.go_first(), Err(ContainerEmptyError));
    assert!(list.after());
    list.go_before();
    assert_eq!(list.go_forth(), Ok(()));
    assert!(list.after());

    // once the list is empty again, the call fails again and moves nothing
    list.insert_last(4).unwrap();
    assert_eq!(list.go_first(), Ok(()));
    assert_eq!(list.item(), Ok(4));
    assert_eq!(list.first_item(), Ok(4));
    list.delete_first().unwrap();
    assert!(list.before());
    assert_eq!(list.go_first(), Err(ContainerEmptyError));
    assert!(list.before());
}

#[test]
fn get_item_at_index_counts_from_the_first_element() {
    let mut list = list_of(3, &[1, 2, 3]);
    list.delete_first().unwrap();
    list.insert_last(4).unwrap();
    assert_eq!(list.get_item_at_index(0), Ok(2));
    assert_eq!(list.get_item_at_index(2), Ok(4));
    assert_eq!(list.get_item_at_index(3), Err(InvalidArgumentError));
    let empty: ArrayedList<i32> = ArrayedList::new(3);
    assert_eq!(empty.get_item_at_index(0), Err(InvalidArgumentError));
}

#[test]
fn iterator_holds_the_elements_in_order() {
    let mut list = list_of(3, &[1, 2, 3]);
    list.delete_first().unwrap();
    list.insert_last(4).unwrap();
    list.go_after();
    let mut it = list.iterator();
    assert_eq!(it.position(), 0);
    let mut seen = Vec::new();
    while it.item_exists() {
        seen.push(it.item().unwrap());
        it.go_forth().unwrap();
    }
    assert_eq!(seen, vec![2, 3, 4]);
    assert!(it.after());

    let empty: ArrayedList<i32> = ArrayedList::new(3);
    let CursorPosition::ArrayedList(snapshot) = empty.current_position();
    assert!(snapshot.before());
    assert!(snapshot.item().is_err());
}

#[test]
fn the_largest_capacity_is_accepted() {
    assert_eq!(MAX_CAPACITY, 2147483647);
    let list: ArrayedList<u8> = ArrayedList::new(1000);
    assert_eq!(list.capacity(), 1000);
}

#[test]
fn every_failure_has_its_message() {
    assert_eq!(AfterTheEndError.description(), "after the end error!");
    assert_eq!(BeforeTheStartError.description(), "before the start error!");
    assert_eq!(ContainerEmptyError.description(), "container empty error!");
    assert_eq!(ContainerFullError.description(), "container full error!");
    assert_eq!(DuplicateItemsError.description(), "duplicate items error!");
    assert_eq!(InvalidArgumentError.description(), "invalid argument error!");
    assert_eq!(InvalidStateError.description(), "invalid state error!");
    assert_eq!(NoCurrentItemError.description(), "no current item error!");
    assert_eq!(ItemNotFoundError.description(), "item not found error!");
    assert_eq!(ContainerError::ContainerFull.description(), "container full error!");
    assert_eq!(ContainerError::ItemNotFound.description(), "item not found error!");
    assert_eq!(ContainerError::AfterTheEnd.description(), "after the end error!");
    assert_eq!(ContainerError::InvalidArgument.description(), "invalid argument error!");
    assert_eq!(ContainerError::ContainerEmpty.description(), "container empty error!");
    assert_eq!(ContainerError::BeforeTheStart.description(), "before the start error!");
    assert_eq!(ContainerError::DuplicateItems.description(), "duplicate items error!");
    assert_eq!(ContainerError::InvalidState.description(), "invalid state error!");
    assert_eq!(ContainerError::NoCurrentItem.description(), "no current item error!");
}
