//! The request-handling core of a small read-only product service.
//!
//! A request is resolved against an immutable route table. The greeting route
//! answers at once; the product listing asks its driver for a connection and
//! for the rows of the product table, and turns them into a JSON document.
//! Everything here is plain data in, plain data out: sockets, the connection
//! pool and the store itself belong to the program that drives this crate.

pub mod error;
pub mod http;
pub mod product;
pub mod json;
pub mod routes;
pub mod exchange;
pub mod startup;
