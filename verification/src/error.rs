//! The failures that the service distinguishes.

use vstd::prelude::*;

verus! {

/// A failure scoped to one request. None of them stops the service, and each
/// is reported to the client as the same generic server error.
#[derive(Clone, Copy, Debug, PartialEq, Eq, Structural)]
pub enum RequestError {
    /// The store could not be reached when a connection was asked for.
    StoreUnavailable,
    /// No pooled connection became free within the bounded wait.
    PoolExhausted,
    /// The store refused or failed the read query.
    QueryFailed,
    /// A row did not have the shape of a product.
    MappingFailed,
}

/// A mistake in the route table, found while the table is assembled.
#[derive(Clone, Copy, Debug, PartialEq, Eq, Structural)]
pub enum RouteError {
    /// The path is not a well-formed literal route path.
    InvalidPath,
    /// The table already holds a route for this method and path.
    DuplicateRoute,
}

/// A failure that keeps the service from starting at all.
#[derive(Clone, Copy, Debug, PartialEq, Eq, Structural)]
pub enum StartupError {
    /// The configuration is missing or wrong; a faulty route table counts.
    BadConfiguration,
    /// The connection pool could not be built.
    PoolFailed,
    /// The listening socket could not be bound.
    BindFailed,
}

impl RequestError {
    /// The name of the failure, for the operator's log.
    pub fn describe(&self) -> (out: &'static str)
        ensures
            out@ == match *self {
                RequestError::StoreUnavailable => "store unavailable"@,
                RequestError::PoolExhausted => "connection pool exhausted"@,
                RequestError::QueryFailed => "query failed"@,
                RequestError::MappingFailed => "row mapping failed"@,
            },
    {
        match self {
            RequestError::StoreUnavailable => "store unavailable",
            RequestError::PoolExhausted => "connection pool exhausted",
            RequestError::QueryFailed => "query failed",
            RequestError::MappingFailed => "row mapping failed",
        }
    }
}

} // verus!
