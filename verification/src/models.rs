//! The resources of the service, as typed values.
pub mod fields;
pub mod user;
