//! The command model of the command-line front end: which mutation the user
//! asked for, with its raw field strings. The argument parsing itself is a
//! collaborator outside this library; it hands over plain values in these
//! shapes.

use vstd::prelude::*;

verus! {

/// Everything the command line carries: optional overrides for the node
/// endpoint, the key-pair file and the operation format version, and the
/// command to run.
#[derive(Debug, Clone, PartialEq)]
pub struct PamPamCli {
    pub endpoint: Option<String>,
    pub key_pair_path: Option<String>,
    pub op_version: Option<usize>,
    pub commands: Commands,
}

/// The command to run: create a schema or document, update a document, or
/// delete one.
#[derive(Debug, Clone, PartialEq)]
pub enum Commands {
    Create(CreateCommands),
    Update(UpdateCommands),
    Delete(DeleteCommands),
}

/// What to create: a schema from named type declarations, or a document
/// from named value assignments.
#[derive(Debug, Clone, PartialEq)]
pub enum CreateCommands {
    Schema { name: String, description: String, fields: Vec<String> },
    Document { schema_id: String, fields: Vec<String> },
}

/// Which document to update, and the new field values.
#[derive(Debug, Clone, PartialEq)]
pub enum UpdateCommands {
    Document { schema_id: String, view_id: String, fields: Vec<String> },
}

/// Which document to delete.
#[derive(Debug, Clone, PartialEq)]
pub enum DeleteCommands {
    Document { schema_id: String, view_id: String },
}

} // verus!
