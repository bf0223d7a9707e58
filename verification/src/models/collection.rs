//! The collection container: a named tree of requests with shared variables
//! and metadata. Pure data with a parse / re-serialize lifecycle; absent
//! optional fields round-trip as absent.

use vstd::prelude::*;
use crate::models::request::{Auth, Event, Header, Request};
use crate::models::variable::Variable;

verus! {

/// The collection's own metadata.
#[derive(Debug, Clone, PartialEq)]
pub struct CollectionInfo {
    pub name: String,
    pub description: Option<String>,
    pub schema: Option<String>,
    pub postman_id: Option<String>,
    pub exporter_id: Option<String>,
}

/// One node of the collection tree: a folder of further items or a request,
/// possibly with saved example responses.
#[derive(Debug, PartialEq)]
pub struct CollectionItem {
    pub name: String,
    pub item: Option<Vec<CollectionItem>>,
    pub request: Option<Request>,
    pub response: Option<Vec<Response>>,
    pub event: Option<Vec<Event>>,
    pub description: Option<String>,
    pub variable: Option<Vec<Variable>>,
}

/// A saved example response attached to a collection item. The `timings`
/// slot carries an arbitrary JSON value at the boundary; it is held here as
/// raw JSON text and never read.
#[derive(Debug, Clone, PartialEq)]
pub struct Response {
    pub name: Option<String>,
    pub original_request: Option<Request>,
    pub status: Option<String>,
    pub code: Option<u16>,
    pub postman_previewlanguage: Option<String>,
    pub header: Option<Vec<Header>>,
    pub cookie: Option<Vec<Cookie>>,
    pub body: Option<String>,
    pub response_time: Option<String>,
    pub timings: Option<String>,
}

/// A cookie recorded with a saved response.
#[derive(Debug, Clone, PartialEq)]
pub struct Cookie {
    pub name: Option<String>,
    pub value: Option<String>,
    pub domain: Option<String>,
    pub path: Option<String>,
    pub expires: Option<String>,
    pub http_only: Option<bool>,
    pub secure: Option<bool>,
}

/// A whole collection document.
#[derive(Debug, PartialEq)]
pub struct Collection {
    pub info: CollectionInfo,
    pub item: Vec<CollectionItem>,
    pub variable: Option<Vec<Variable>>,
    pub event: Option<Vec<Event>>,
    pub auth: Option<Auth>,
}

} // verus!
