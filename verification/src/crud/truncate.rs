//! Truncate queries.
use vstd::prelude::*;

use super::{ExtractColumn, QueryType};
use crate::text::{chars_of, contains, contains_exec, find, find_exec, lemma_find, occurs_at};

verus! {

/// The truncate operation.
pub struct Truncate;

/// A truncate query is read when a single table name follows its first
/// space and nothing more: no space after the first one.
pub open spec fn truncate_readable(q: Seq<char>) -> bool {
    match find(q, " "@) {
        None => false,
        Some(i) => !contains(q.skip(i + 1), " "@),
    }
}

/// Whether a truncate query names a single table and nothing more.
pub fn is_readable_truncate(query: &str) -> (b: bool)
    ensures
        b == truncate_readable(query@),
{
    let chars = chars_of(query);
    let space = chars_of(" ");
    match find_exec(&chars, &space) {
        None => false,
        Some(i) => {
            proof {
                lemma_find(query@, " "@);
                assert(occurs_at(query@, " "@, i as int));
                reveal_strlit(" ");
            }
            let n = chars.len();
            assert(i + 1 <= n);
            let table = crate::text::sub_chars(&chars, i + 1, n);
            assert(table@ =~= query@.skip(i + 1));
            !contains_exec(&table, &space)
        },
    }
}

impl Truncate {
    /// The word that a truncate query starts with.
    pub fn crud_query_start(&self) -> (r: &'static str)
        ensures
            r@ == "truncate"@,
    {
        "truncate"
    }

    /// The text after which a truncate query names its table.
    pub fn table_name_after(&self) -> (r: &'static str)
        ensures
            r@ == " "@,
    {
        " "
    }

    /// A truncate query names no columns.
    pub fn column_clauses(&self, query: &str) -> (r: ExtractColumn)
        requires
            truncate_readable(query@),
        ensures
            r@.len() == 0,
    {
        Vec::new()
    }

    /// The type of a truncate query, which never names a primary key.
    pub fn query_type(&self, _query: &str, full_pk: bool) -> (r: QueryType)
        requires
            !full_pk,
        ensures
            r == QueryType::Truncate,
    {
        QueryType::Truncate
    }
}

} // verus!
