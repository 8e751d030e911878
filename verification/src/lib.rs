//! A newsletter-subscription library: validated domain values for a
//! subscriber's name and email address, the conversion from raw form input
//! into those values, and the mapping from failures to HTTP status codes and
//! JSON error bodies. The HTTP server, database access and telemetry setup
//! live outside this crate; they hand plain values in and take plain values
//! back.

pub mod domain;
pub mod error;
pub mod routes;
pub mod telemetry;
pub mod text;
