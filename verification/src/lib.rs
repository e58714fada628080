//! Routing of local descriptor files to the endpoints of the curation
//! service, assembly of the requests that carry them, and reading of the
//! service's answers.
//!
//! Everything here is pure: the caller reads files, sends requests and prints
//! reports, and hands the library the bytes and texts it got.

pub mod batch;
pub mod endpoint;
pub mod json;
pub mod request;
pub mod response;
pub mod route;
pub mod route_laws;
pub mod submission;
pub mod text;
