//! Request lifecycle core for a portal backend.
//!
//! A portal backend exposes long-running, user-facing operations (access
//! prompts, print dialogs, ...) to sandboxed clients over an IPC bus. Every
//! operation is published as an addressable, cancellable request object, raced
//! against an explicit cancellation signal, and resolved to exactly one
//! terminal response. This crate holds the verified heart of that protocol:
//! the response envelope, the one-shot cancellation token, the request object
//! with its monotonic state, the per-identity registry, and the driver
//! decisions that turn a race outcome into a response. The asynchronous bus
//! plumbing around it stays outside the library.

pub mod access;
pub mod driver;
pub mod print;
pub mod registry;
pub mod request;
pub mod response;
