//! The passive data model: request, URL, body and auth shapes, and the
//! collection and environment containers. The host application is responsible
//! for reading these from JSON and writing them back.

pub mod variable;
pub mod request;
pub mod collection;
pub mod environment;
