//! Materialized views and the tables they are based on.
use vstd::prelude::*;

use crate::capitalizing::{struct_name_of_table, table_name_to_struct_name};
use crate::query_executor::{names, same_names_exec};

verus! {

/// Information about a materialized view
pub struct MaterializedView {
    /// The table name of the materialized view
    pub table_name: String,
    /// The table name where the materialized view is based on
    pub base_table_name: String,
}

/// Detailed information about a materialized view
#[derive(Clone, PartialEq, Debug)]
pub struct MaterializedViewInf {
    /// The corresponding Rust struct name where this materialized view should belong to
    pub struct_name: String,
    /// The table name where the materialized view is based on
    pub base_table_name: String,
    /// Only true if the materialized view has exactly the same columns as the base table
    pub same_columns: bool,
}

/// The query that lists the materialized views of a keyspace.
pub open spec fn materialized_views_query(keyspace: Seq<char>) -> Seq<char> {
    "select view_name as table_name, base_table_name from system_schema.views where keyspace_name = '"@
        + keyspace + "'"@
}

/// Creates query that can be used to query all the materialized views from
/// the keyspace
pub fn query_for_materialized_view(keyspace: &str) -> (r: String)
    ensures
        r@ == materialized_views_query(keyspace@),
{
    let mut q = "select view_name as table_name, base_table_name from system_schema.views where keyspace_name = '".to_owned();
    q.append(keyspace);
    q.append("'");
    q
}

/// The query that finds the materialized view of a keyspace that has the
/// given name.
pub fn query_for_named_materialized_view(keyspace: &str, table_name: &str) -> (r: String)
    ensures
        r@ == materialized_views_query(keyspace@) + " and view_name = '"@ + table_name@ + "'"@,
{
    let mut q = query_for_materialized_view(keyspace);
    q.append(" and view_name = '");
    q.append(table_name);
    q.append("'");
    q
}

/// Detailed information about a materialized view, given the names of the
/// columns of its base table and of its own columns.
pub fn materialized_view_inf(
    mv: &MaterializedView,
    columns_base: &Vec<String>,
    columns_own: &Vec<String>,
    camel_case_to_snake_case: bool,
) -> (r: MaterializedViewInf)
    requires
        struct_name_of_table(mv.base_table_name@, camel_case_to_snake_case) is Some,
    ensures
        r.base_table_name@ == mv.base_table_name@,
        Some(r.struct_name@) == struct_name_of_table(
            mv.base_table_name@,
            camel_case_to_snake_case,
        ),
        r.same_columns == (names(columns_base@).to_set() == names(columns_own@).to_set()),
{
    MaterializedViewInf {
        base_table_name: mv.base_table_name.clone(),
        struct_name: table_name_to_struct_name(mv.base_table_name.as_str(), camel_case_to_snake_case),
        same_columns: same_names_exec(columns_base, columns_own),
    }
}

} // verus!
