//! The rules of a school gradebook service: who may do what to users,
//! students, grades, absences and parent links, what a request body must
//! look like, which rows a caller may be shown, and what each answer of the
//! store is turned into.
//!
//! Nothing here talks to a store or to a network. A handler asks the library
//! what to do, does it, and hands back what happened; every decision in
//! between is a function with a proved contract.

pub mod auth;
pub mod date;
pub mod error;
pub mod field;
pub mod ident;
pub mod models;
pub mod services;
pub mod storage;
pub mod text;
pub mod visibility;
