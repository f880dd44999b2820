pub mod dict;
