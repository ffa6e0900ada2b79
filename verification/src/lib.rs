//! Request and response rules of a small REST backend for user accounts.
//!
//! The crate holds the domain records, the repository capability, the error
//! taxonomy of each endpoint, the mapping from an endpoint's outcome to an
//! HTTP response with a fixed JSON error envelope, and the route table.

pub mod clock;
pub mod errors;
pub mod json;
pub mod login;
pub mod payloads;
pub mod repo;
pub mod response;
pub mod routes;
pub mod status;
pub mod storage;
pub mod user;
