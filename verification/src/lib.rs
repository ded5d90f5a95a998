//! Data-access core of a small chat backend: the documents it stores, the
//! requests its repository sends to a document store, and what it makes of
//! the store's answers. Nothing here performs I/O.

pub mod collection;
pub mod db;
pub mod routes;
pub mod schema;
