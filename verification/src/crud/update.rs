//! Update queries.
use vstd::prelude::*;

use super::insert::{split_entries, strings};
use super::{models, ColumnModel, ColumnValue, ExtractColumn, QueryType};
use crate::text::{chars_of, find, find_exec, lemma_find, occurs_at, split};

verus! {

/// The update operation.
pub struct Update;

/// The column that one assignment `column = value` of a set clause updates;
/// `None` where the assignment has no ` = `.
pub open spec fn updated_column(assignment: Seq<char>) -> Option<ColumnModel> {
    let parts = split(assignment, " = "@);
    if parts.len() < 2 {
        None
    } else {
        Some(
            ColumnModel {
                column_name: parts[0],
                parameterized: parts[1] == "?"@,
                uses_in_value: false,
                is_part_of_where_clause: false,
            },
        )
    }
}

/// The assignments of the set clause of an update query: the text after
/// ` set `, between its `, ` separators.
pub open spec fn assignments(q: Seq<char>, set: int) -> Seq<Seq<char>> {
    split(q.skip(set + " set "@.len()), ", "@)
}

/// The columns that an update query sets; `None` where it has no ` set ` or
/// an assignment has no ` = `.
pub open spec fn update_columns(q: Seq<char>) -> Option<Seq<ColumnModel>> {
    match find(q, " set "@) {
        None => None,
        Some(set) => {
            let a = assignments(q, set);
            if exists|i: int| 0 <= i < a.len() && (#[trigger] updated_column(a[i])) is None {
                None
            } else {
                Some(Seq::new(a.len(), |i: int| updated_column(a[i]).unwrap()))
            }
        },
    }
}

/// The columns that an update query sets, or `None` where they cannot be read.
pub fn try_update_columns(query: &str) -> (r: Option<ExtractColumn>)
    ensures
        match r {
            Some(v) => update_columns(query@) == Some(models(v@)),
            None => update_columns(query@) is None,
        },
{
    let chars = chars_of(query);
    let set_pat = chars_of(" set ");
    let set = match find_exec(&chars, &set_pat) {
        Some(s) => s,
        None => return None,
    };
    proof {
        lemma_find(query@, " set "@);
        assert(occurs_at(query@, " set "@, set as int));
    }
    let n = chars.len();
    assert(set + set_pat@.len() <= n);
    let update = query.substring_char(set + set_pat.len(), n);
    assert(update@ =~= query@.skip(set + " set "@.len()));
    let entries = split_entries(update);
    let ghost a = assignments(query@, set as int);
    let question = "?".to_owned();
    let mut out: Vec<ColumnValue> = Vec::new();
    let mut i: usize = 0;
    while i < entries.len()
        invariant
            i <= entries.len(),
            question@ == "?"@,
            strings(entries@) == a,
            find(query@, " set "@) == Some(set as int),
            a == assignments(query@, set as int),
            out@.len() == i,
            forall|j: int|
                0 <= j < i ==> (#[trigger] updated_column(a[j])) is Some && out@[j]@
                    == updated_column(a[j]).unwrap(),
        decreases entries.len() - i,
    {
        let parts = split_entries_by_equals(entries[i].as_str());
        assert(strings(entries@)[i as int] == entries@[i as int]@);
        if parts.len() < 2 {
            assert(updated_column(a[i as int]) is None);
            return None;
        }
        let parameterized = parts[1] == question;
        out.push(
            ColumnValue {
                column_name: parts[0].clone(),
                parameterized,
                uses_in_value: false,
                is_part_of_where_clause: false,
            },
        );
        assert(strings(parts@)[0] == parts@[0]@);
        assert(strings(parts@)[1] == parts@[1]@);
        assert(out@[i as int]@ == updated_column(a[i as int]).unwrap());
        i = i + 1;
    }
    assert(models(out@) =~= Seq::new(a.len(), |j: int| updated_column(a[j]).unwrap()));
    Some(out)
}

/// The pieces of `val` between its ` = ` separators.
fn split_entries_by_equals(val: &str) -> (r: Vec<String>)
    ensures
        strings(r@) == split(val@, " = "@),
{
    let eq = chars_of(" = ");
    proof {
        reveal_strlit(" = ");
    }
    let parts = crate::text::split_exec(&chars_of(val), &eq);
    let mut r: Vec<String> = Vec::new();
    let mut i: usize = 0;
    while i < parts.len()
        invariant
            i <= parts.len(),
            crate::text::char_seqs(parts@) == split(val@, " = "@),
            strings(r@) == crate::text::char_seqs(parts@).take(i as int),
        decreases parts.len() - i,
    {
        let piece = crate::text::string_from_chars(&parts[i], 0, parts[i].len());
        proof {
            assert(parts@[i as int]@.subrange(0, parts@[i as int]@.len() as int) =~= parts@[
                i as int
            ]@);
        }
        assert(strings(r@).len() == r@.len());
        assert(crate::text::char_seqs(parts@).len() == parts@.len());
        r.push(piece);
        assert(strings(r@) =~= crate::text::char_seqs(parts@).take(i + 1));
        i = i + 1;
    }
    assert(crate::text::char_seqs(parts@).take(i as int) =~= crate::text::char_seqs(parts@));
    r
}

impl Update {
    /// The word that an update query starts with.
    pub fn crud_query_start(&self) -> (r: &'static str)
        ensures
            r@ == "update"@,
    {
        "update"
    }

    /// The text after which an update query names its table.
    pub fn table_name_after(&self) -> (r: &'static str)
        ensures
            r@ == "update "@,
    {
        "update "
    }

    /// The columns that an update query sets.
    pub fn column_clauses(&self, query: &str) -> (r: ExtractColumn)
        requires
            update_columns(query@) is Some,
        ensures
            update_columns(query@) == Some(models(r@)),
    {
        match try_update_columns(query) {
            Some(v) => v,
            None => Vec::new(),
        }
    }

    /// The type of an update query: always a unique update.
    pub fn query_type(&self, _query: &str, _full_pk: bool) -> (r: QueryType)
        ensures
            r == QueryType::UpdateUnique,
    {
        QueryType::UpdateUnique
    }
}

} // verus!
