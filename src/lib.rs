//! An HTTP gateway adapter between a web framework and a query-execution
//! backend: request normalization, response assembly, error translation and
//! the startup decisions (backend selection, mount points).
pub mod query;
pub mod request;
pub mod response;
pub mod startup;
