//! The shapes of what the node answers: schema definitions and their
//! metadata, as plain values. The transport that fills them is a
//! collaborator outside this library.

pub mod schemas;
