//! Insert queries.
use vstd::prelude::*;

use super::{models, ColumnModel, ColumnValue, ExtractColumn, QueryType};
use crate::text::{
    char_seqs, chars_of, find, find_exec, lemma_find, occurs_at, split, split_exec,
    string_from_chars,
};

verus! {

/// The insert operation.
pub struct Insert;

/// The text of `q` between its first `(` and its first `)`; `None` where
/// either is missing or the first `)` comes before the first `(`.
pub open spec fn parenthesized(q: Seq<char>) -> Option<Seq<char>> {
    match (find(q, "("@), find(q, ")"@)) {
        (Some(open), Some(close)) => if open + 1 > close {
            None
        } else {
            Some(q.subrange(open + 1, close))
        },
        _ => None,
    }
}

/// A column of an insert query with the value that the query gives it.
pub open spec fn inserted_column(name: Seq<char>, value: Seq<char>) -> ColumnModel {
    ColumnModel {
        column_name: name,
        parameterized: value == "?"@,
        uses_in_value: false,
        is_part_of_where_clause: false,
    }
}

/// The columns of an insert query: the names in its first parentheses, each
/// paired with the value at the same place in the parentheses that follow;
/// `None` where the parentheses are missing or there are fewer values than
/// columns.
pub open spec fn insert_columns(q: Seq<char>) -> Option<Seq<ColumnModel>> {
    match (parenthesized(q), find(q, ")"@)) {
        (Some(clause), Some(close)) => match parenthesized(q.skip(close + 1)) {
            Some(values_clause) => {
                let columns = split(clause, ", "@);
                let values = split(values_clause, ", "@);
                if columns.len() > values.len() {
                    None
                } else {
                    Some(Seq::new(columns.len(), |i: int| inserted_column(columns[i], values[i])))
                }
            },
            None => None,
        },
        _ => None,
    }
}

/// The models of a list of strings.
pub open spec fn strings(v: Seq<String>) -> Seq<Seq<char>> {
    v.map_values(|s: String| s@)
}

/// The text between the first `(` and the first `)` of `q`, or `None`.
pub fn try_parenthesized(q: &str) -> (r: Option<&str>)
    ensures
        match r {
            Some(t) => parenthesized(q@) == Some(t@),
            None => parenthesized(q@) is None,
        },
{
    let chars = chars_of(q);
    let open = find_exec(&chars, &chars_of("("));
    let close = find_exec(&chars, &chars_of(")"));
    match (open, close) {
        (Some(o), Some(c)) => {
            proof {
                lemma_find(q@, "("@);
                assert(occurs_at(q@, "("@, o as int));
                reveal_strlit("(");
                lemma_find(q@, ")"@);
                assert(occurs_at(q@, ")"@, c as int));
            }
            let n = chars.len();
            assert(o + 1 <= n);
            if o + 1 > c {
                None
            } else {
                Some(q.substring_char(o + 1, c))
            }
        },
        _ => None,
    }
}

/// The pieces of `val` between its `, ` separators.
pub fn split_entries(val: &str) -> (r: Vec<String>)
    ensures
        strings(r@) == split(val@, ", "@),
{
    let comma = chars_of(", ");
    proof {
        reveal_strlit(", ");
    }
    let parts = split_exec(&chars_of(val), &comma);
    let mut r: Vec<String> = Vec::new();
    let mut i: usize = 0;
    while i < parts.len()
        invariant
            i <= parts.len(),
            char_seqs(parts@) == split(val@, ", "@),
            strings(r@) == char_seqs(parts@).take(i as int),
        decreases parts.len() - i,
    {
        let piece = string_from_chars(&parts[i], 0, parts[i].len());
        proof {
            assert(parts@[i as int]@.subrange(0, parts@[i as int]@.len() as int) =~= parts@[
                i as int
            ]@);
        }
        assert(strings(r@).len() == r@.len());
        assert(char_seqs(parts@).len() == parts@.len());
        r.push(piece);
        assert(strings(r@) =~= char_seqs(parts@).take(i + 1));
        i = i + 1;
    }
    assert(char_seqs(parts@).take(i as int) =~= char_seqs(parts@));
    r
}

/// The columns of an insert query, or `None` where they cannot be read.
pub fn try_insert_columns(query: &str) -> (r: Option<ExtractColumn>)
    ensures
        match r {
            Some(v) => insert_columns(query@) == Some(models(v@)),
            None => insert_columns(query@) is None,
        },
{
    let clause = match try_parenthesized(query) {
        Some(c) => c,
        None => return None,
    };
    let chars = chars_of(query);
    let close = match find_exec(&chars, &chars_of(")")) {
        Some(c) => c,
        None => return None,
    };
    proof {
        lemma_find(query@, ")"@);
        assert(occurs_at(query@, ")"@, close as int));
        reveal_strlit(")");
    }
    let n = chars.len();
    assert(close + 1 <= n);
    let rest = query.substring_char(close + 1, n);
    assert(rest@ =~= query@.skip(close + 1));
    let values_clause = match try_parenthesized(rest) {
        Some(v) => v,
        None => return None,
    };
    let columns = split_entries(clause);
    let values = split_entries(values_clause);
    if columns.len() > values.len() {
        return None;
    }
    let ghost expected = Seq::new(
        strings(columns@).len(),
        |i: int| inserted_column(strings(columns@)[i], strings(values@)[i]),
    );
    let question = "?".to_owned();
    let mut out: Vec<ColumnValue> = Vec::new();
    let mut i: usize = 0;
    while i < columns.len()
        invariant
            i <= columns.len() <= values.len(),
            question@ == "?"@,
            expected == Seq::new(
                strings(columns@).len(),
                |i: int| inserted_column(strings(columns@)[i], strings(values@)[i]),
            ),
            models(out@) == expected.take(i as int),
        decreases columns.len() - i,
    {
        let parameterized = values[i] == question;
        let ghost before = out@;
        assert(models(before).len() == before.len());
        out.push(
            ColumnValue {
                column_name: columns[i].clone(),
                parameterized,
                uses_in_value: false,
                is_part_of_where_clause: false,
            },
        );
        assert(out@[i as int]@ == expected[i as int]);
        assert(models(out@) =~= expected.take(i + 1));
        i = i + 1;
    }
    assert(expected.take(i as int) =~= expected);
    Some(out)
}

impl Insert {
    /// The word that an insert query starts with.
    pub fn crud_query_start(&self) -> (r: &'static str)
        ensures
            r@ == "insert"@,
    {
        "insert"
    }

    /// The text after which an insert query names its table.
    pub fn table_name_after(&self) -> (r: &'static str)
        ensures
            r@ == "into "@,
    {
        "into "
    }

    /// The columns of an insert query with the values it gives them.
    pub fn column_clauses(&self, query: &str) -> (r: ExtractColumn)
        requires
            insert_columns(query@) is Some,
        ensures
            insert_columns(query@) == Some(models(r@)),
    {
        match try_insert_columns(query) {
            Some(v) => v,
            None => Vec::new(),
        }
    }

    /// The type of an insert query: always a unique insert.
    pub fn query_type(&self, _query: &str, _full_pk: bool) -> (r: QueryType)
        ensures
            r == QueryType::InsertUnique,
    {
        QueryType::InsertUnique
    }

    /// The text between the first `(` and the first `)` of `q`.
    pub fn x<'a>(&self, q: &'a str) -> (r: &'a str)
        requires
            parenthesized(q@) is Some,
        ensures
            parenthesized(q@) == Some(r@),
    {
        match try_parenthesized(q) {
            Some(t) => t,
            None => q,
        }
    }

    /// The pieces of `val` between its `, ` separators.
    pub fn split(&self, val: &str) -> (r: Vec<String>)
        ensures
            strings(r@) == split(val@, ", "@),
    {
        split_entries(val)
    }
}

} // verus!
