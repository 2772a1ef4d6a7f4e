//! Core of a task-management REST API: a uniform response envelope, a closed
//! domain-error taxonomy with its storage-failure mapper, a transport renderer
//! that turns either into a concrete status/body pair, and a task store with a
//! validating service on top.

pub mod codec;
pub mod error;
pub mod handlers;
pub mod json;
pub mod render;
pub mod repository;
pub mod requests;
pub mod response;
pub mod service;
pub mod task;
