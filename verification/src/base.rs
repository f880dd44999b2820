pub mod basic_dict;
pub mod bilinear_iterator;
pub mod container;
pub mod cursor;
pub mod cursor_position;
pub mod cursor_saving;
pub mod dispenser;
pub mod linear_iterator;
pub mod membership;
pub mod pair;
pub mod searchable;
