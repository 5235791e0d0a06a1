//! Core of a small read-only HTTP gateway in front of the Scoop.it API:
//! routing, response projection, error handling and request metrics,
//! each stated as a contract over plain values.

pub mod config;
pub mod output;
pub mod upstream;
pub mod text;
pub mod metrics;
pub mod router;
pub mod error;
pub mod response;
pub mod gateway;
pub mod handlers;
