//! A directory of people: the rules by which a lookup and a sign-up move
//! between an authoritative record store and an advisory cache in front of it.
//!
//! The library talks to neither. Each operation is a small state machine that
//! says which request to send next and what to answer once the replies are in;
//! the program around it sends the requests. What holds of the operations,
//! whatever the cache does, is proved in [`laws`] against the [`model`] of the
//! record store and the cache.

pub mod cache;
pub mod config;
pub mod controllers;
pub mod database;
pub mod error_handler;
pub mod laws;
pub mod model;
