//! Read path of a container registry whose data lives in an object store,
//! with a local metadata cache in front of it.

pub mod digest;
pub mod error;
pub mod json;
pub mod keys;
pub mod resolve;
pub mod route;
pub mod tag_scan;
pub mod text;
