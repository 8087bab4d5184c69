//! The values a request is assembled from.

pub mod login;
pub mod request;
