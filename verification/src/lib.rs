//! Construction of outbound HTTP requests from Postman-style request models.
//!
//! The library turns a loosely structured request description (method, URL
//! parts, headers, body, auth) into a concrete request plan: a URL string,
//! a header list, an optional payload and a validated method. Every step of
//! that pipeline is specified and verified. Sending the plan over the network
//! and the JSON (de)serialization of the models are left to the host
//! application.

pub mod strutil;
pub mod encoding;
pub mod errors;
pub mod models;
pub mod urlbuild;
pub mod bodybuild;
pub mod auth;
pub mod executor;
pub mod boundary;
