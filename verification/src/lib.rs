//! Lending ledger of a library: which book is out, who holds it, and what
//! happened to it before.
//!
//! The crate keeps the rules of lending apart from the store that persists
//! them.
//!
//! - [`command`] holds the two write transactions, lending a book and
//!   taking it back, as a machine that a driver steps through against any
//!   store, and [`protocol`] the requests and answers that pass between
//!   them.
//! - [`database`] is an in-memory store with the tables of the ledger, and
//!   [`repository`] the repository over it: it runs the transactions and
//!   answers the read queries.
//! - [`ledger`] is the mathematical model that all of them are proved
//!   against, and [`laws`] what holds of it whatever is done.
//! - [`model`], [`id`] and [`error`] hold the values, the identifiers and
//!   the errors; [`auth`] and [`env`] the session keys and the choice of the
//!   environment.

pub mod auth;
pub mod command;
pub mod database;
pub mod env;
pub mod error;
pub mod id;
pub mod laws;
pub mod ledger;
pub mod model;
pub mod protocol;
pub mod repository;
