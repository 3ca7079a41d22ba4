//! The schema engine of a web framework, verified.
//!
//! A model is described by a [`schema::Schema`]: its names and its
//! [`column::Column`]s. From the descriptor, a [`query::Query`] and a
//! [`mutation::Mutation`], the library writes the statements that create
//! the table of the model, and that insert, update, delete, find and count
//! its rows ([`operations`], [`related`]). It decides what an operation
//! returns for what the database answers ([`statement`]), and resolves the
//! settings of the connection pools ([`database`]).
//!
//! The library touches no database, clock or network. Every function
//! states what it returns, and the verifier proves that it does: what is
//! written into a statement is a name of the descriptor or an encoded
//! value, and nothing else of the caller's text.
pub mod column;
pub mod config;
pub mod database;
pub mod dataset;
pub mod datetime;
pub mod duration;
pub mod format;
pub mod json;
pub mod model;
pub mod mutation;
pub mod operations;
pub mod postgres;
pub mod query;
pub mod record;
pub mod related;
pub mod request;
pub mod schema;
pub mod server;
pub mod statement;
pub mod text;
pub mod value;
