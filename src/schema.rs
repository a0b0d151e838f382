pub mod common;
pub mod example;
pub mod todo;
