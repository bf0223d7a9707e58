//! The environment container: a named key/value store with export metadata.

use vstd::prelude::*;
use crate::models::variable::Variable;

verus! {

/// A whole environment document.
#[derive(Debug, Clone, PartialEq)]
pub struct Environment {
    pub id: Option<String>,
    pub name: String,
    pub values: Option<Vec<Variable>>,
    pub postman_variable_scope: Option<String>,
    pub postman_exported_at: Option<String>,
    pub postman_exported_using: Option<String>,
}

} // verus!
