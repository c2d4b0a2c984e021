//! Test-fixture synthesis for relational queries: infers column types from
//! sample data, renders the statements that create and fill the tables, and
//! turns a query's result set back into a fixture document.

pub mod error;
pub mod fixture;
pub mod plan;
pub mod result;
pub mod round_trip;
pub mod schema;
pub mod statement;
pub mod text;
pub mod value;
