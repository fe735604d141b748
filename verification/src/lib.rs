//! A single-user to-do list: the tasks, the five commands that read or change
//! them, and the JSON text in which the list is kept between runs.

pub mod codec;
pub mod command;
pub mod json;
pub mod report;
pub mod store;
pub mod todo;
