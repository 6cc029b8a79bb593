//! What each operation is for, as a relation between what goes in and what
//! comes out.
//!
//! A contract says what a function does in the terms its module works in. The
//! laws here say what follows for a caller, in terms of the arguments and the
//! results alone: characters, bytes, bound values and answers.
pub mod admin;
pub mod auth;
pub mod config;
pub mod db;
pub mod error;
pub mod health;
pub mod installs;
pub mod limits;
pub mod me;
pub mod models;
pub mod replies;
pub mod taken;
pub mod text;
pub mod workflows;
