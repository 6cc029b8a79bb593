//! The handlers, one module for each part of the API.
//!
//! A handler starts with what the request says and ends with what the caller
//! is told. Between the two it passes through stages: each hands out the
//! statement to run next and takes the reply, and nothing but the reply before
//! it makes the next stage.
pub mod admin;
pub mod health;
pub mod installs;
pub mod me;
pub mod workflows;
