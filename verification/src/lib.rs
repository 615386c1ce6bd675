//! A single-consumer task dispatch library: clients enqueue notification
//! tasks, one consumer claims them oldest-first, reports completion, and a
//! periodic sweep returns stuck in-progress tasks to the queue after their
//! lease expires.

pub mod api;
pub mod laws;
pub mod store;
pub mod task;
pub mod validate;
