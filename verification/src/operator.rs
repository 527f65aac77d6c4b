//! What the node-facing operator computes before anything leaves the
//! process: its configuration builder, and the exact wire payloads and
//! query texts for publishing schemas and creating, updating and deleting
//! documents. The transport that sends them is a collaborator outside this
//! library.

use vstd::prelude::*;
use vstd::string::*;
use crate::document::{document_fields_to_json_fields, json_field_spec, DocumentFields};
use crate::fields::{type_render_spec, FieldType, FieldValue};
use crate::schema::SchemaFields;
use crate::text::{u64_dec_spec, usize_to_string};

verus! {

/// Configuration gathered before an operator is built: the operation format
/// version, where the signing key lives, and the node endpoint.
pub struct OperatorBuilder {
    pub version: usize,
    pub key_pair_path: Option<String>,
    pub endpoint: String,
}

impl OperatorBuilder {
    /// The defaults: version 1, no key-pair path, the local node endpoint.
    pub fn new() -> (r: OperatorBuilder)
        ensures
            r.version == 1,
            r.key_pair_path is None,
            r.endpoint@ == "http://localhost:2020/graphql"@,
    {
        OperatorBuilder {
            version: 1,
            key_pair_path: None,
            endpoint: ("http://localhost:2020/graphql").to_owned(),
        }
    }

    /// Picks the operation format version.
    pub fn version(self, v: usize) -> (r: OperatorBuilder)
        ensures
            r.version == v,
            r.key_pair_path == self.key_pair_path,
            r.endpoint == self.endpoint,
    {
        OperatorBuilder { version: v, ..self }
    }

    /// Picks the file the signing key is read from or written to.
    pub fn key_pair_path(self, path: &str) -> (r: OperatorBuilder)
        ensures
            r.version == self.version,
            r.key_pair_path matches Some(p) && p@ == path@,
            r.endpoint == self.endpoint,
    {
        OperatorBuilder { key_pair_path: Some(path.to_owned()), ..self }
    }

    /// Picks the node endpoint.
    pub fn endpoint(self, endpoint: &str) -> (r: OperatorBuilder)
        ensures
            r.version == self.version,
            r.key_pair_path == self.key_pair_path,
            r.endpoint@ == endpoint@,
    {
        OperatorBuilder { endpoint: endpoint.to_owned(), ..self }
    }
}

impl Default for OperatorBuilder {
    /// The defaults: version 1, no key-pair path, the local node endpoint.
    fn default() -> (r: OperatorBuilder)
        ensures
            r.version == 1,
            r.key_pair_path is None,
            r.endpoint@ == "http://localhost:2020/graphql"@,
    {
        OperatorBuilder::new()
    }
}

/// The items joined with a comma and a space between each two.
pub open spec fn join_comma_upto(items: Seq<Seq<char>>, n: int) -> Seq<char>
    decreases n,
{
    if n <= 0 {
        Seq::empty()
    } else if n == 1 {
        items[0]
    } else {
        join_comma_upto(items, n - 1) + ", "@ + items[n - 1]
    }
}

/// Joins the items with `", "` between each two.
pub fn join_comma(items: &Vec<String>) -> (r: String)
    ensures
        r@ == join_comma_upto(
            Seq::new(items@.len(), |i: int| items@[i]@),
            items@.len() as int,
        ),
{
    let ghost views = Seq::new(items@.len(), |i: int| items@[i]@);
    let mut acc = String::new();
    let mut i: usize = 0;
    while i < items.len()
        invariant
            0 <= i <= items@.len(),
            views == Seq::new(items@.len(), |k: int| items@[k]@),
            acc@ == join_comma_upto(views, i as int),
        decreases items@.len() - i,
    {
        if i > 0 {
            acc.append(", ");
        }
        acc.append(items[i].as_str());
        i = i + 1;
    }
    acc
}

/// The publication payload of one schema field definition.
pub open spec fn field_def_payload_spec(version: nat, key: Seq<char>, t: crate::fields::FieldTypeSpec) -> Seq<char> {
    "["@ + u64_dec_spec(version) + ", 0, \"schema_field_definition_v1\", { \"name\": \""@ + key
        + "\", \"type\": \""@ + type_render_spec(t) + "\" }]"@
}

/// Renders the publication payload of every schema field, in the
/// collection's sorted order: one field definition is published per field,
/// and the node answers each with the field's id.
pub fn schema_field_payloads(version: usize, fields: &SchemaFields) -> (r: Vec<String>)
    ensures
        r@.len() == fields.spec_entries().len(),
        forall|i: int|
            0 <= i < r@.len() ==> (#[trigger] r@[i])@ == field_def_payload_spec(
                version as nat,
                fields.spec_entries()[i].0@,
                fields.spec_entries()[i].1@,
            ),
{
    let entries = fields.entries();
    let ver = usize_to_string(version);
    let mut out: Vec<String> = Vec::new();
    let mut i: usize = 0;
    while i < entries.len()
        invariant
            0 <= i <= entries@.len(),
            entries@ == fields.spec_entries(),
            ver@ == u64_dec_spec(version as nat),
            out@.len() == i,
            forall|j: int|
                0 <= j < i ==> (#[trigger] out@[j])@ == field_def_payload_spec(
                    version as nat,
                    fields.spec_entries()[j].0@,
                    fields.spec_entries()[j].1@,
                ),
        decreases entries@.len() - i,
    {
        let mut line = ("[").to_owned();
        line.append(ver.as_str());
        line.append(", 0, \"schema_field_definition_v1\", { \"name\": \"");
        line.append(entries[i].0.as_str());
        line.append("\", \"type\": \"");
        let rendered = entries[i].1.render();
        line.append(rendered.as_str());
        line.append("\" }]");
        out.push(line);
        i = i + 1;
    }
    out
}

/// One published field id, bracketed as the schema definition payload lists
/// it.
pub open spec fn bracket_id_spec(id: Seq<char>) -> Seq<char> {
    "[\""@ + id + "\"]"@
}

/// The publication payload of a schema definition over already-published
/// field ids.
pub open spec fn schema_def_payload_spec(
    version: nat,
    description: Seq<char>,
    ids: Seq<Seq<char>>,
    name: Seq<char>,
) -> Seq<char> {
    "["@ + u64_dec_spec(version) + ", 0, \"schema_definition_v1\", { \"description\": \""@
        + description + "\", \"fields\": ["@ + join_comma_upto(
        Seq::new(ids.len(), |i: int| bracket_id_spec(ids[i])),
        ids.len() as int,
    ) + "], \"name\": \""@ + name + "\" }]"@
}

/// Renders the publication payload of a schema definition: the description,
/// the bracketed field ids in their given order, and the name.
pub fn schema_definition_payload(
    version: usize,
    description: &str,
    field_ids: &Vec<String>,
    name: &str,
) -> (r: String)
    ensures
        r@ == schema_def_payload_spec(
            version as nat,
            description@,
            Seq::new(field_ids@.len(), |i: int| field_ids@[i]@),
            name@,
        ),
{
    let ghost ids = Seq::new(field_ids@.len(), |i: int| field_ids@[i]@);
    let mut brackets: Vec<String> = Vec::new();
    let mut i: usize = 0;
    while i < field_ids.len()
        invariant
            0 <= i <= field_ids@.len(),
            ids == Seq::new(field_ids@.len(), |k: int| field_ids@[k]@),
            brackets@.len() == i,
            forall|j: int|
                0 <= j < i ==> (#[trigger] brackets@[j])@ == bracket_id_spec(ids[j]),
        decreases field_ids@.len() - i,
    {
        let mut b = ("[\"").to_owned();
        b.append(field_ids[i].as_str());
        b.append("\"]");
        brackets.push(b);
        i = i + 1;
    }
    let joined = join_comma(&brackets);
    proof {
        assert(Seq::new(brackets@.len(), |k: int| brackets@[k]@) =~= Seq::new(
            ids.len(),
            |k: int| bracket_id_spec(ids[k]),
        ));
    }
    let mut r = ("[").to_owned();
    let ver = usize_to_string(version);
    r.append(ver.as_str());
    r.append(", 0, \"schema_definition_v1\", { \"description\": \"");
    r.append(description);
    r.append("\", \"fields\": [");
    r.append(joined.as_str());
    r.append("], \"name\": \"");
    r.append(name);
    r.append("\" }]");
    r
}

/// The payload fragments of a document's fields, in entry order.
pub open spec fn document_payload_fragments(entries: Seq<(String, FieldValue)>) -> Seq<Seq<char>> {
    Seq::new(entries.len(), |i: int| json_field_spec(entries[i].0@, entries[i].1@))
}

/// The creation payload of a document against a schema.
pub open spec fn create_document_payload_spec(
    version: nat,
    schema_id: Seq<char>,
    entries: Seq<(String, FieldValue)>,
) -> Seq<char> {
    "["@ + u64_dec_spec(version) + ", 0, \""@ + schema_id + "\", { "@ + join_comma_upto(
        document_payload_fragments(entries),
        entries.len() as int,
    ) + " } ]"@
}

/// Renders the creation payload of a document: the schema id and the
/// rendered fields in the collection's sorted order.
pub fn create_document_payload(version: usize, schema_id: &str, fields: &DocumentFields) -> (r:
    String)
    ensures
        r@ == create_document_payload_spec(version as nat, schema_id@, fields.spec_entries()),
{
    let frags = document_fields_to_json_fields(fields);
    let joined = join_comma(&frags);
    proof {
        assert(Seq::new(frags@.len(), |k: int| frags@[k]@) =~= document_payload_fragments(
            fields.spec_entries(),
        ));
    }
    let mut r = ("[").to_owned();
    let ver = usize_to_string(version);
    r.append(ver.as_str());
    r.append(", 0, \"");
    r.append(schema_id);
    r.append("\", { ");
    r.append(joined.as_str());
    r.append(" } ]");
    r
}

/// The update payload of a document: the schema id, the view id being
/// updated, and the new field values.
pub open spec fn update_document_payload_spec(
    version: nat,
    schema_id: Seq<char>,
    view_id: Seq<char>,
    entries: Seq<(String, FieldValue)>,
) -> Seq<char> {
    "["@ + u64_dec_spec(version) + ", 1, \""@ + schema_id + "\", [ \""@ + view_id + "\" ], { "@
        + join_comma_upto(document_payload_fragments(entries), entries.len() as int) + " } ]"@
}

/// Renders the update payload of a document.
pub fn update_document_payload(
    version: usize,
    schema_id: &str,
    view_id: &str,
    fields: &DocumentFields,
) -> (r: String)
    ensures
        r@ == update_document_payload_spec(
            version as nat,
            schema_id@,
            view_id@,
            fields.spec_entries(),
        ),
{
    let frags = document_fields_to_json_fields(fields);
    let joined = join_comma(&frags);
    proof {
        assert(Seq::new(frags@.len(), |k: int| frags@[k]@) =~= document_payload_fragments(
            fields.spec_entries(),
        ));
    }
    let mut r = ("[").to_owned();
    let ver = usize_to_string(version);
    r.append(ver.as_str());
    r.append(", 1, \"");
    r.append(schema_id);
    r.append("\", [ \"");
    r.append(view_id);
    r.append("\" ], { ");
    r.append(joined.as_str());
    r.append(" } ]");
    r
}

/// The deletion payload of a document: the schema id and the view id being
/// deleted.
pub open spec fn delete_document_payload_spec(
    version: nat,
    schema_id: Seq<char>,
    view_id: Seq<char>,
) -> Seq<char> {
    "[ "@ + u64_dec_spec(version) + ","@ + "2"@ + ",\""@ + schema_id + "\",[\""@ + view_id
        + "\"] ]"@
}

/// Renders the deletion payload of a document.
pub fn delete_document_payload(version: usize, schema_id: &str, view_id: &str) -> (r: String)
    ensures
        r@ == delete_document_payload_spec(version as nat, schema_id@, view_id@),
{
    let mut r = ("[ ").to_owned();
    let ver = usize_to_string(version);
    r.append(ver.as_str());
    r.append(",");
    r.append("2");
    r.append(",\"");
    r.append(schema_id);
    r.append("\",[\"");
    r.append(view_id);
    r.append("\"] ]");
    r
}

/// The view-id argument of the next-arguments query: `null` where the
/// operation names no previous view, the quoted id otherwise.
pub open spec fn view_id_arg_spec(view_id: Option<Seq<char>>) -> Seq<char> {
    match view_id {
        None => "null"@,
        Some(v) => "\""@ + v + "\""@,
    }
}

/// The query asking the node for the arguments of the next entry.
pub open spec fn next_args_query_spec(public_key: Seq<char>, view_id: Option<Seq<char>>) -> Seq<
    char,
> {
    "\n            {\n                nextArgs(publicKey: \""@ + public_key + "\", viewId: "@
        + view_id_arg_spec(view_id)
        + ") {\n                    logId\n                    seqNum\n                    skiplink\n                    backlink\n                }\n            }\n            "@
}

/// Renders the query asking the node for the arguments of the next entry:
/// the signing public key, and the previous view id where the operation has
/// one.
pub fn next_args_query(public_key: &str, view_id: &Option<String>) -> (r: String)
    ensures
        r@ == next_args_query_spec(
            public_key@,
            match view_id {
                Some(v) => Some(v@),
                None => None,
            },
        ),
{
    let mut r = ("\n            {\n                nextArgs(publicKey: \"").to_owned();
    r.append(public_key);
    r.append("\", viewId: ");
    match view_id {
        None => r.append("null"),
        Some(v) => {
            r.append("\"");
            r.append(v.as_str());
            r.append("\"");
        }
    }
    r.append(
        ") {\n                    logId\n                    seqNum\n                    skiplink\n                    backlink\n                }\n            }\n            ",
    );
    r
}

/// The mutation publishing a signed entry and its encoded operation.
pub open spec fn publish_mutation_spec(entry: Seq<char>, operation: Seq<char>) -> Seq<char> {
    "\n            mutation Publish {\n                publish(entry: \""@ + entry
        + "\", operation: \""@ + operation
        + "\") {\n                    logId\n                    seqNum\n                    skiplink\n                    backlink\n                }\n            }\n        "@
}

/// Renders the mutation publishing a signed entry and its encoded operation.
pub fn publish_mutation(entry: &str, operation: &str) -> (r: String)
    ensures
        r@ == publish_mutation_spec(entry@, operation@),
{
    let mut r = ("\n            mutation Publish {\n                publish(entry: \"").to_owned();
    r.append(entry);
    r.append("\", operation: \"");
    r.append(operation);
    r.append(
        "\") {\n                    logId\n                    seqNum\n                    skiplink\n                    backlink\n                }\n            }\n        ",
    );
    r
}

} // verus!
