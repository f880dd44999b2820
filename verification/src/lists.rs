pub mod arrayed_list;
pub mod arrayed_list_iterator;
pub mod laws;
pub mod list_view;
pub mod ring;
pub mod simple_list;
