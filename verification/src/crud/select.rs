//! Select queries.
use vstd::prelude::*;

use super::{models, ColumnModel, ColumnValue, ExtractColumn, QueryType};
use crate::text::{
    char_seqs, chars_of, contains, contains_exec, ends_with, ends_with_exec, find, find_exec,
    lemma_find, occurs_at, same_chars, split, split_exec, string_from_chars, sub_chars,
};

verus! {

/// The select operation.
pub struct Select;

/// A column named outside the where clause, with no value.
pub open spec fn plain_column(name: Seq<char>) -> ColumnModel {
    ColumnModel {
        column_name: name,
        parameterized: false,
        uses_in_value: false,
        is_part_of_where_clause: false,
    }
}

/// The column of one comma-separated entry of a select clause: the entry up
/// to ` as `, if the entry gives an alias.
pub open spec fn selected_column(entry: Seq<char>) -> ColumnModel {
    plain_column(split(entry, " as "@)[0])
}

/// The columns that the select clause (between `select ` and ` from`) of a
/// query names; none for `*` or a count; `None` where the query has no
/// `select ` or ` from` or names no clause between them.
pub open spec fn select_columns(q: Seq<char>) -> Option<Seq<ColumnModel>> {
    match (find(q, " from"@), find(q, "select "@)) {
        (Some(from), Some(select)) => {
            let start = select + "select "@.len();
            if start > from {
                None
            } else {
                let clause = q.subrange(start, from);
                if clause == "*"@ || contains(clause, "count("@) {
                    Some(Seq::empty())
                } else {
                    Some(split(clause, ", "@).map_values(|c: Seq<char>| selected_column(c)))
                }
            }
        },
        _ => None,
    }
}

/// The type of a select query, given whether its where clause names the full
/// primary key; `None` for the combinations that are refused: `in (?)`, or a
/// full primary key together with `limit 1` or a count.
pub open spec fn select_query_type(q: Seq<char>, full_pk: bool) -> Option<QueryType> {
    if contains(q, " in (?)"@) {
        None
    } else {
        let limited_by_one = ends_with(q, " limit 1"@);
        let counts = contains(q, "count("@);
        if full_pk {
            if limited_by_one || counts {
                None
            } else {
                Some(QueryType::SelectUnique)
            }
        } else if limited_by_one {
            Some(QueryType::SelectUniqueByLimit)
        } else if counts {
            Some(QueryType::SelectCount)
        } else {
            Some(QueryType::SelectMultiple)
        }
    }
}

/// A select query that does not name the full primary key is unique by its
/// limit exactly when it ends with ` limit 1`, whatever else it holds (a
/// where clause, a count); one that names the full primary key is unique,
/// and refused where it also ends with ` limit 1` or counts; every query
/// with ` in (?)` is refused.
pub proof fn lemma_select_query_type(q: Seq<char>)
    ensures
        contains(q, " in (?)"@) ==> select_query_type(q, false) is None && select_query_type(
            q,
            true,
        ) is None,
        !contains(q, " in (?)"@) ==> (select_query_type(q, false) == Some(
            QueryType::SelectUniqueByLimit,
        ) <==> ends_with(q, " limit 1"@)),
        !contains(q, " in (?)"@) && !ends_with(q, " limit 1"@) ==> select_query_type(q, false)
            == Some(
            if contains(q, "count("@) {
                QueryType::SelectCount
            } else {
                QueryType::SelectMultiple
            },
        ),
        select_query_type(q, true) is Some <==> !contains(q, " in (?)"@) && !ends_with(
            q,
            " limit 1"@,
        ) && !contains(q, "count("@),
        select_query_type(q, true) matches Some(t) ==> t == QueryType::SelectUnique,
{
}

/// The columns of the select clause of a query, or `None` where it cannot be
/// read.
pub fn try_select_columns(query: &str) -> (r: Option<ExtractColumn>)
    ensures
        match r {
            Some(v) => select_columns(query@) == Some(models(v@)),
            None => select_columns(query@) is None,
        },
{
    let q = chars_of(query);
    let from_pat = chars_of(" from");
    let select_pat = chars_of("select ");
    let from_index = find_exec(&q, &from_pat);
    let select_index = find_exec(&q, &select_pat);
    let (from, select) = match (from_index, select_index) {
        (Some(f), Some(s)) => (f, s),
        _ => return None,
    };
    proof {
        lemma_find(q@, select_pat@);
        assert(occurs_at(q@, select_pat@, select as int));
    }
    let q_len = q.len();
    assert(select + select_pat@.len() <= q_len);
    let start = select + select_pat.len();
    if start > from {
        return None;
    }
    proof {
        lemma_find(q@, from_pat@);
    }
    let clause = sub_chars(&q, start, from);
    let mut columns: Vec<ColumnValue> = Vec::new();
    if same_chars(&clause, &chars_of("*")) || contains_exec(&clause, &chars_of("count(")) {
        assert(models(columns@) =~= Seq::<ColumnModel>::empty());
        return Some(columns);
    }
    let comma = chars_of(", ");
    let alias = chars_of(" as ");
    proof {
        reveal_strlit(", ");
        reveal_strlit(" as ");
    }
    let entries = split_exec(&clause, &comma);
    let ghost expected = split(clause@, ", "@).map_values(|c: Seq<char>| selected_column(c));
    let mut i: usize = 0;
    while i < entries.len()
        invariant
            i <= entries.len(),
            char_seqs(entries@) == split(clause@, ", "@),
            expected == split(clause@, ", "@).map_values(|c: Seq<char>| selected_column(c)),
            alias@ == " as "@,
            alias@.len() > 0,
            models(columns@) == expected.take(i as int),
        decreases entries.len() - i,
    {
        let parts = split_exec(&entries[i], &alias);
        assert(char_seqs(entries@)[i as int] == entries@[i as int]@);
        let ghost parts_model = split(entries@[i as int]@, " as "@);
        assert(parts_model.len() > 0) by {
            lemma_split_nonempty(entries@[i as int]@, " as "@);
        }
        assert(char_seqs(parts@).len() == parts@.len());
        assert(char_seqs(parts@)[0] == parts@[0]@);
        assert(expected[i as int] == selected_column(split(clause@, ", "@)[i as int]));
        assert(expected[i as int] == plain_column(parts@[0]@));
        let name = string_from_chars(&parts[0], 0, parts[0].len());
        assert(parts@[0]@.subrange(0, parts@[0]@.len() as int) =~= parts@[0]@);
        assert(name@ == parts@[0]@);
        let ghost before = columns@;
        assert(char_seqs(entries@).len() == entries@.len());
        assert(models(before).len() == before.len());
        assert(before.len() == i);
        columns.push(
            ColumnValue {
                column_name: name,
                parameterized: false,
                uses_in_value: false,
                is_part_of_where_clause: false,
            },
        );
        proof {
            assert(parts@[0]@.subrange(0, parts@[0]@.len() as int) =~= parts@[0]@);
            assert(columns@[i as int]@ == expected[i as int]);
            assert(models(columns@) =~= expected.take(i + 1));
        }
        i = i + 1;
    }
    assert(expected.take(i as int) =~= expected);
    Some(columns)
}

/// Splitting always gives at least one piece.
pub proof fn lemma_split_nonempty(s: Seq<char>, p: Seq<char>)
    ensures
        split(s, p).len() > 0,
    decreases s.len(),
{
    if p.len() > 0 {
        match find(s, p) {
            None => {},
            Some(i) => {
                lemma_find(s, p);
                lemma_split_nonempty(s.skip(i + p.len()), p);
            },
        }
    }
}

/// The type of a select query, or `None` for a refused combination.
pub fn try_select_query_type(query: &str, full_pk: bool) -> (r: Option<QueryType>)
    ensures
        r == select_query_type(query@, full_pk),
{
    let q = chars_of(query);
    if contains_exec(&q, &chars_of(" in (?)")) {
        return None;
    }
    let limited_by_one = ends_with_exec(&q, &chars_of(" limit 1"));
    let counts = contains_exec(&q, &chars_of("count("));
    if full_pk {
        if limited_by_one || counts {
            None
        } else {
            Some(QueryType::SelectUnique)
        }
    } else if limited_by_one {
        Some(QueryType::SelectUniqueByLimit)
    } else if counts {
        Some(QueryType::SelectCount)
    } else {
        Some(QueryType::SelectMultiple)
    }
}

impl Select {
    /// The word that a select query starts with.
    pub fn crud_query_start(&self) -> (r: &'static str)
        ensures
            r@ == "select"@,
    {
        "select"
    }

    /// The text after which a select query names its table.
    pub fn table_name_after(&self) -> (r: &'static str)
        ensures
            r@ == "from "@,
    {
        "from "
    }

    /// The columns that the select clause of a query names.
    pub fn column_clauses(&self, query: &str) -> (r: ExtractColumn)
        requires
            select_columns(query@) is Some,
        ensures
            select_columns(query@) == Some(models(r@)),
    {
        match try_select_columns(query) {
            Some(v) => v,
            None => Vec::new(),
        }
    }

    /// The type of a select query; `full_pk` says whether its where clause
    /// names the full primary key.
    pub fn query_type(&self, query: &str, full_pk: bool) -> (r: QueryType)
        requires
            select_query_type(query@, full_pk) is Some,
        ensures
            select_query_type(query@, full_pk) == Some(r),
    {
        match try_select_query_type(query, full_pk) {
            Some(t) => t,
            None => QueryType::SelectMultiple,
        }
    }
}

} // verus!
