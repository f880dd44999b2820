pub mod after_the_end_error;
pub mod before_the_start_error;
pub mod container_empty_error;
pub mod container_full_error;
pub mod duplicate_items_error;
pub mod invalid_argument_error;
pub mod invalid_state_error;
pub mod no_current_item_error;
pub mod item_not_found_error;
pub mod container_error;
