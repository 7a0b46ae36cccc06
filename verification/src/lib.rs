//! Core of a small inventory browser for a musical-instrument catalog.
//!
//! Three mutually exclusive front ends (a network API, a console loop and a
//! desktop window) share one read operation over a single storage session.
//! This crate holds the verified core: the record model, the exclusive
//! connection guard, the fetch operation and the decision logic of each
//! front end. The unverified shells around it (routes, prompts, widgets)
//! live outside the library and hand plain values in and out.

pub mod api;
pub mod cli;
pub mod errors;
pub mod guard;
pub mod gui;
pub mod modes;
pub mod models;
pub mod schema;
pub mod session;
