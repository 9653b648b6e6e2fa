//! The state engine of a terminal task list: priorities, tasks, and the store
//! that holds the list together with its selection and scroll cursor.

pub mod app;
pub mod laws;
pub mod priority;
pub mod scrollbar;
pub mod task;
pub mod text;
