//! A to-do list: tasks with a due date that move through three states, the
//! table that holds them, and the requests that change it.
//!
//! - [`status`]: the three states and their stored codes.
//! - [`lifecycle`]: the transitions between the states and what each writes.
//! - [`clock`]: clock readings, their text, and the default due date.
//! - [`model`]: the task table as a mathematical value.
//! - [`db`]: the task record and the operations of the store.
//! - [`handlers`]: what each request does.
//! - [`laws`]: what holds of all of it.

pub mod clock;
pub mod db;
pub mod handlers;
pub mod laws;
pub mod lifecycle;
pub mod model;
pub mod status;

pub use handlers::{create, delete, doing, done, start, todo, undo};
