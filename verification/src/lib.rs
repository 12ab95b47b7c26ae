//! The execution core of an interactive database session.
//!
//! A session classifies a SQL statement, has a worker run it, and tracks that one
//! worker in a task slot which the front end polls without ever blocking. A
//! mutating statement keeps its connection after it has ended, until the front
//! end commits or rolls back.
//!
//! - [`classify`]: which statement of a text will run, and of what kind.
//! - [`rows`]: the shape of results, built from what a backend fetched.
//! - [`task`]: the task slot and its transitions, as specifications.
//! - [`driver`]: the driver that owns the slot and carries those transitions out.
//! - [`queries`]: the texts of the menu and preview queries.
//! - [`laws`]: what holds of the slot over whole runs of calls.
//! - [`error`]: the failures that the core itself names.

pub mod classify;
pub mod driver;
pub mod error;
pub mod laws;
pub mod queries;
pub mod rows;
pub mod task;

pub use driver::OracleDriver;
