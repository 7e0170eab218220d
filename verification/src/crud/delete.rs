//! Delete queries.
use vstd::prelude::*;

use super::{ExtractColumn, QueryType};

verus! {

/// The delete operation.
pub struct Delete;

impl Delete {
    /// The word that a delete query starts with.
    pub fn crud_query_start(&self) -> (r: &'static str)
        ensures
            r@ == "delete"@,
    {
        "delete"
    }

    /// The text after which a delete query names its table.
    pub fn table_name_after(&self) -> (r: &'static str)
        ensures
            r@ == "from "@,
    {
        "from "
    }

    /// A delete query names no columns outside its where clause.
    pub fn column_clauses(&self, _query: &str) -> (r: ExtractColumn)
        ensures
            r@.len() == 0,
    {
        Vec::new()
    }

    /// The type of a delete query: unique when its where clause names the
    /// full primary key.
    pub fn query_type(&self, _query: &str, full_pk: bool) -> (r: QueryType)
        ensures
            r == (if full_pk {
                QueryType::DeleteUnique
            } else {
                QueryType::DeleteMultiple
            }),
    {
        if full_pk {
            QueryType::DeleteUnique
        } else {
            QueryType::DeleteMultiple
        }
    }
}

} // verus!
