//! Schema definitions as the node reports them, and the variables of the
//! queries that ask for them.

use vstd::prelude::*;

verus! {

/// Answer to the query for every known schema definition.
#[derive(Debug, Clone, PartialEq)]
pub struct AllSchemaDefinitionResponse {
    pub all_schemas: Vec<SchemaDefinition>,
}

/// Answer to the query for one schema definition.
#[derive(Debug, Clone, PartialEq)]
pub struct SchemaDefinitionResponse {
    pub schema: SchemaDefinition,
}

/// One schema definition: its document metadata and its declared fields.
#[derive(Debug, Clone, PartialEq)]
pub struct SchemaDefinition {
    pub meta: Meta,
    pub fields: SchemaDefinitionFields,
}

/// Where a document lives: its id and the id of its current view.
#[derive(Debug, Clone, PartialEq)]
pub struct Meta {
    pub document_id: String,
    pub view_id: String,
}

/// The declared surface of a schema: name, description, and field entries.
#[derive(Debug, Clone, PartialEq)]
pub struct SchemaDefinitionFields {
    pub name: String,
    pub description: String,
    pub fields: Vec<Fields>,
}

/// One field entry as the node nests it.
#[derive(Debug, Clone, PartialEq)]
pub struct Fields {
    pub fields: FieldDefinition,
}

/// One declared field: its name and the textual form of its type.
#[derive(Debug, Clone, PartialEq)]
pub struct FieldDefinition {
    pub name: String,
    pub type_: String,
}

/// Variables of the query for one schema definition.
#[derive(Debug, Clone, PartialEq)]
pub struct GetSchemaVars {
    pub view_id: String,
}

} // verus!
