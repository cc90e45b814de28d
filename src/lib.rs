//! An in-memory registry of asynchronous tasks: identifiers are handed out by a
//! counter, every task moves at most once from in-progress to a terminal state,
//! and a completion that arrives after a cancellation is discarded.

/// Cooperative cancellation handles for running work
pub mod cancel;
/// The registry that owns every task's state
pub mod daemon;
/// Turning the outcome of submitted work into a task result
pub mod gateway;
/// The texts that the HTTP layer answers with
pub mod response;
/// Task states and the transitions between them
pub mod task;
/// File download checks
pub mod download;
/// Content store paths and identifiers
pub mod storage;
/// Archive requests and the payload stored for them
pub mod link;
