//! A user directory behind an HTTP interface, written sans-I/O.
//!
//! The library decides; the program around it performs. A handler in
//! [`api::user_api`] turns a request into a [`api::user_api::Step`]: either the
//! response, or a command for the document store together with what to do when
//! the store has answered. The program runs the command, hands the reply to
//! [`api::user_api::resume`], and repeats until a response comes out.
pub mod api;
pub mod models;
pub mod repository;
