//! The workflow registry: what a request may ask for, which statements it
//! runs against the database, and what each reply means to the caller.
//!
//! Everything here is decided without touching a socket or a database. A
//! handler is a chain of stages; each stage hands out the statement to run and
//! takes the reply, so a caller can neither skip a check nor reorder one.
pub mod auth;
pub mod config;
pub mod cors;
pub mod db;
pub mod deps;
pub mod error;
pub mod headers;
pub mod laws;
pub mod models;
pub mod ratelimit;
pub mod routes;
pub mod tables;
pub mod text;
