//! Query analysis and query-text generation for an object mapper over
//! Cassandra/ScyllaDB tables.
use vstd::prelude::*;

pub mod capitalizing;
pub mod ci;
pub mod crud;
pub mod decimal;
pub mod impl_writer;
pub mod materialized_view;
pub mod method_writer;
pub mod mirror;
pub mod query_executor;
pub mod query_macro;
pub mod query_writer;
pub mod read_back;
pub mod schema;
pub mod some_struct;
pub mod supported_data_types;
pub mod text;

verus! {
} // verus!
