pub mod builder;
pub mod cli;
pub mod convert;
pub mod document;
pub mod entries;
pub mod error;
pub mod fields;
pub mod graphql;
pub mod laws;
pub mod operator;
pub mod parser;
pub mod queries;
pub mod schema;
pub mod text;
