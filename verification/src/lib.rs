//! A single-table data-access core for a small social network: users,
//! stories and comments share one key-value table, are found through a
//! primary and an inverted index, and are removed by cascading deletes.
//!
//! The crate performs no I/O. It routes a request to a command, builds the
//! requests that a table client sends, interprets the replies, decides
//! what happens next, and writes the response. An in-memory table with the
//! semantics expected of the real one is included, so that whole commands
//! can be run and reasoned about.

pub mod cascade;
pub mod command;
pub mod db;
pub mod error;
pub mod ident;
pub mod interrupted;
pub mod item;
pub mod keys;
pub mod listing;
pub mod model;
pub mod pairs;
pub mod render;
pub mod request;
pub mod route;
pub mod run;
pub mod session;
pub mod table;
pub mod text;
