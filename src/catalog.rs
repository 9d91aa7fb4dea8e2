//! Plain records exchanged with the catalog and the schema resolver.
use vstd::prelude::*;

verus! {

/// Summary of one namespace as the catalog lists it.
pub struct Namespace {
    pub id: i64,
    pub name: String,
}

/// Snapshot of a namespace's schema, passed through unchanged into a handle.
pub struct NamespaceSchema {
    pub id: i64,
    pub table_names: Vec<String>,
}

/// A failed read of the catalog.
pub struct CatalogError {
    pub message: String,
}

} // verus!
