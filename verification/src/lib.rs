//! A todo service.
//!
//! The service keeps items, each with an id, a title, an optional
//! description and two flags, and offers five HTTP routes on them.
//!
//! - `todo` holds the item and the payloads that create and change it.
//! - `error` holds the failures of the storage and of a request, and the
//!   HTTP status of each.
//! - `table` holds the model of the table, with the meaning of each
//!   statement, and a table in memory that carries the statements out.
//! - `outcome` reads what a storage hands back for a statement as the
//!   answer of the repository. A service that keeps its items in a
//!   database runs the statements there and reads the outcomes with these
//!   functions.
//! - `repository` holds the answer to each operation as a function of the
//!   table's state, and the repository over the table in memory.
//! - `api` holds the response to each answer and the handler of each
//!   route.
//! - `laws` proves what holds across operations.

pub mod api;
pub mod error;
pub mod laws;
pub mod outcome;
pub mod repository;
pub mod table;
pub mod todo;
