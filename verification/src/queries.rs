//! An earlier shape of the node's schema-definition answers, kept for
//! callers that still read it; it differs from the current one in how the
//! field entries nest.

use vstd::prelude::*;

verus! {

/// Answer to the query for every known schema definition.
#[derive(Debug, Clone, PartialEq)]
pub struct AllSchemaDefinitionResponse {
    pub all_schemas: Vec<SchemaDefinition>,
}

/// One schema definition: its document metadata and its declared fields.
#[derive(Debug, Clone, PartialEq)]
pub struct SchemaDefinition {
    pub meta: Meta,
    pub fields: FieldsSchemaDefinition,
}

/// Where a document lives: its id and the id of its current view.
#[derive(Debug, Clone, PartialEq)]
pub struct Meta {
    pub document_id: String,
    pub view_id: String,
}

/// The declared surface of a schema: name, description, and field entries.
#[derive(Debug, Clone, PartialEq)]
pub struct FieldsSchemaDefinition {
    pub name: String,
    pub description: String,
    pub fields: Vec<Fields>,
}

/// One field entry as the node nests it.
#[derive(Debug, Clone, PartialEq)]
pub struct Fields {
    pub fields: FieldDefinition,
}

/// One declared field: its name and the textual form of its type.
#[derive(Debug, Clone, PartialEq)]
pub struct FieldDefinition {
    pub name: String,
    pub type_: String,
}

} // verus!
