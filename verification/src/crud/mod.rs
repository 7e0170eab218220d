//! Reading the parts of a CQL query: its kind, its table and the columns it
//! uses.
use vstd::prelude::*;

pub mod delete;
pub mod insert;
pub mod select;
pub mod truncate;
pub mod update;

use self::delete::Delete;
use self::insert::{insert_columns, try_insert_columns, Insert};
use self::select::{select_columns, select_query_type, try_select_columns, try_select_query_type, Select};
use self::truncate::{is_readable_truncate, truncate_readable, Truncate};
use self::update::{try_update_columns, update_columns, Update};
use crate::text::{
    chars_of, find, find_exec, occurs_at, starts_with, starts_with_exec, find_from_exec, has_char, lemma_find,
    lemma_find_from_skip, rfind, rfind_exec, string_from_chars,
};

verus! {

/// A column that is used in a query.
#[derive(Debug, PartialEq)]
pub struct ColumnValue {
    pub column_name: String,
    /// If true, the column is assigned a question mark (... where a = ?)
    /// If false, the column has a fixed value (... where a = 1)
    pub parameterized: bool,
    /// Only true if the column uses an in value (... where a in ?)
    pub uses_in_value: bool,
    /// Only true if the column is used in the where clause
    /// False if e.g. the column is part of the select clause
    pub is_part_of_where_clause: bool,
}

/// The mathematical model of a [`ColumnValue`].
pub ghost struct ColumnModel {
    pub column_name: Seq<char>,
    pub parameterized: bool,
    pub uses_in_value: bool,
    pub is_part_of_where_clause: bool,
}

impl View for ColumnValue {
    type V = ColumnModel;

    open spec fn view(&self) -> ColumnModel {
        ColumnModel {
            column_name: self.column_name@,
            parameterized: self.parameterized,
            uses_in_value: self.uses_in_value,
            is_part_of_where_clause: self.is_part_of_where_clause,
        }
    }
}

/// The columns that a query uses, in the order in which the query names them.
pub type ExtractColumn = Vec<ColumnValue>;

/// The models of a list of columns.
pub open spec fn models(v: Seq<ColumnValue>) -> Seq<ColumnModel> {
    v.map_values(|c: ColumnValue| c@)
}

/// The different types of a query
#[derive(PartialEq, Eq, Debug, Clone, Copy, Structural)]
pub enum QueryType {
    /// Select multiple rows
    SelectMultiple,
    /// Selects single row because it ends with limit 1
    SelectUniqueByLimit,
    /// Select a unique row
    SelectUnique,
    /// Selects a count
    SelectCount,
    /// Updates a row
    /// Note: this is always on full primary key
    UpdateUnique,
    /// Deletes multiple rows
    DeleteMultiple,
    /// Deletes a unique row
    DeleteUnique,
    /// Inserts a single row
    InsertUnique,
    /// Truncates a table
    Truncate,
}

// ---------------------------------------------------------------------------
// Splitting a query at its where and limit clauses
// ---------------------------------------------------------------------------

/// The query without its limit clause (cut at the last ` limit `), and that
/// query without its where clause (cut at the first ` where `).
pub open spec fn split_query_spec(q: Seq<char>) -> (Seq<char>, Seq<char>) {
    let query = match rfind(q, " limit "@) {
        Some(i) => q.take(i),
        None => q,
    };
    let where_clause = match find(query, " where "@) {
        Some(i) => i,
        None => query.len() as int,
    };
    (query, query.take(where_clause))
}

/// Splits the query in a tuple
/// The first element is the query without the limit clause (if any)
/// The second element is the query without the limit and where clause
pub fn split_query(q: &str) -> (r: (&str, &str))
    ensures
        r.0@ == split_query_spec(q@).0,
        r.1@ == split_query_spec(q@).1,
{
    let chars = chars_of(q);
    let limit = chars_of(" limit ");
    let end = match rfind_exec(&chars, &limit) {
        Some(i) => i,
        None => chars.len(),
    };
    proof {
        crate::text::lemma_rfind_below(q@, " limit "@, q@.len() - " limit "@.len());
        if end == chars.len() {
            assert(chars@.take(end as int) =~= chars@);
        }
    }
    let query = q.substring_char(0, end);
    let query_chars = chars_of(query);
    let where_ = chars_of(" where ");
    let where_clause = match find_exec(&query_chars, &where_) {
        Some(i) => i,
        None => query_chars.len(),
    };
    proof {
        lemma_find(query@, " where "@);
    }
    (query, query.substring_char(0, where_clause))
}

// ---------------------------------------------------------------------------
// The where clause
// ---------------------------------------------------------------------------

/// The operators that can stand between a column and its value in a where
/// clause.
pub open spec fn where_operators() -> Seq<Seq<char>> {
    seq![" = "@, " >= "@, " > "@, " <= "@, " < "@, " in "@]
}

/// Among the first `k` operators, the one that occurs first in `s`, with the
/// position of its first occurrence; an earlier operator wins a tie.
pub open spec fn lowest_operator(s: Seq<char>, k: int) -> Option<(int, int)>
    decreases k,
{
    if k <= 0 {
        None
    } else {
        let prev = lowest_operator(s, k - 1);
        match find(s, where_operators()[k - 1]) {
            None => prev,
            Some(p) => match prev {
                None => Some((p, k - 1)),
                Some((o, j)) => if p < o {
                    Some((p, k - 1))
                } else {
                    prev
                },
            },
        }
    }
}

/// The columns of a where clause from which `where ` has been removed;
/// `None` where the query cannot be read (a value that would end before it
/// starts).
pub open spec fn where_columns(s: Seq<char>) -> Option<Seq<ColumnModel>>
    decreases s.len(),
{
    match lowest_operator(s, 6) {
        None => Some(Seq::empty()),
        Some((index, k)) => {
            let op = where_operators()[k];
            let and = find(s, " and "@);
            let value_start = index + op.len();
            let value_end = match and {
                Some(p) => p,
                None => s.len() as int,
            };
            if value_start > value_end {
                None
            } else {
                let cv = ColumnModel {
                    column_name: s.take(index),
                    parameterized: has_char(s.subrange(value_start, value_end), '?'),
                    uses_in_value: op == " in "@,
                    is_part_of_where_clause: true,
                };
                match and {
                    None => Some(seq![cv]),
                    Some(p) => {
                        proof {
                            lemma_find(s, " and "@);
                            reveal_strlit(" and ");
                        }
                        match where_columns(s.skip(p + " and "@.len())) {
                            Some(rest) => Some(seq![cv] + rest),
                            None => None,
                        }
                    },
                }
            }
        },
    }
}

/// The columns that the where clause of a query uses; `None` where the
/// query cannot be read.
pub open spec fn columns_after_where_spec(q: Seq<char>) -> Option<Seq<ColumnModel>> {
    match find(q, " where "@) {
        None => Some(Seq::empty()),
        Some(i) => where_columns(q.skip(i + " where "@.len())),
    }
}

/// The operators of a where clause, in their order.
fn operators() -> (r: Vec<Vec<char>>)
    ensures
        r@.len() == 6,
        forall|i: int| 0 <= i < 6 ==> #[trigger] r@[i]@ == where_operators()[i],
{
    let mut r: Vec<Vec<char>> = Vec::new();
    r.push(chars_of(" = "));
    r.push(chars_of(" >= "));
    r.push(chars_of(" > "));
    r.push(chars_of(" <= "));
    r.push(chars_of(" < "));
    r.push(chars_of(" in "));
    r
}

/// Whether `c` occurs in `v[from..to]`.
fn has_char_in(v: &Vec<char>, from: usize, to: usize, c: char) -> (b: bool)
    requires
        from <= to <= v.len(),
    ensures
        b == has_char(v@.subrange(from as int, to as int), c),
{
    let mut i: usize = from;
    while i < to
        invariant
            from <= i <= to <= v.len(),
            forall|j: int| from <= j < i ==> v@[j] != c,
        decreases to - i,
    {
        if v[i] == c {
            assert(v@.subrange(from as int, to as int)[i - from] == c);
            return true;
        }
        i = i + 1;
    }
    false
}

/// Appends the models of `v` before an optional list of models.
pub open spec fn prepend(v: Seq<ColumnValue>, rest: Option<Seq<ColumnModel>>) -> Option<
    Seq<ColumnModel>,
> {
    match rest {
        Some(r) => Some(models(v) + r),
        None => None,
    }
}

/// The columns of the where clause of a query, or `None` where the query
/// cannot be read.
pub fn try_columns_after_where(query: &str) -> (r: Option<ExtractColumn>)
    ensures
        match r {
            Some(v) => columns_after_where_spec(query@) == Some(models(v@)),
            None => columns_after_where_spec(query@) is None,
        },
{
    let q = chars_of(query);
    let w = chars_of(" where ");
    let mut column_values: Vec<ColumnValue> = Vec::new();
    let index = match find_exec(&q, &w) {
        None => {
            assert(models(column_values@) =~= Seq::<ColumnModel>::empty());
            return Some(column_values);
        },
        Some(i) => i,
    };
    proof {
        lemma_find(q@, w@);
        assert(occurs_at(q@, w@, index as int));
    }
    let q_len = q.len();
    assert(index + w@.len() <= q_len);
    let mut start: usize = index + w.len();
    let ops = operators();
    let and = chars_of(" and ");
    proof {
        reveal_strlit(" and ");
        assert(models(column_values@) + where_columns(q@.skip(start as int)).unwrap_or(
            Seq::empty(),
        ) =~= where_columns(q@.skip(start as int)).unwrap_or(Seq::empty()));
    }
    loop
        invariant
            start <= q.len(),
            q@ == query@,
            and@ == " and "@,
            and.len() == 5,
            ops@.len() == 6,
            forall|i: int| 0 <= i < 6 ==> #[trigger] ops@[i]@ == where_operators()[i],
            columns_after_where_spec(query@) == prepend(
                column_values@,
                where_columns(q@.skip(start as int)),
            ),
        decreases q.len() - start,
    {
        let ghost suffix = q@.skip(start as int);
        // The operator that occurs first in the rest of the where clause.
        let mut best: Option<(usize, usize)> = None;
        let mut k: usize = 0;
        while k < 6
            invariant
                k <= 6,
                start <= q.len(),
                suffix == q@.skip(start as int),
                ops@.len() == 6,
                forall|i: int| 0 <= i < 6 ==> #[trigger] ops@[i]@ == where_operators()[i],
                match best {
                    Some((p, j)) => lowest_operator(suffix, k as int) == Some(
                        (p as int, j as int),
                    ),
                    None => lowest_operator(suffix, k as int) is None,
                },
            decreases 6 - k,
        {
            let found = find_from_exec(&q, &ops[k], start);
            proof {
                lemma_find_from_skip(q@, ops@[k as int]@, start as int, start as int);
                lemma_find(suffix, ops@[k as int]@);
            }
            match found {
                None => {},
                Some(s_abs) => {
                    let s = s_abs - start;
                    match best {
                        None => {
                            best = Some((s, k));
                        },
                        Some((o, _)) => {
                            if s < o {
                                best = Some((s, k));
                            }
                        },
                    }
                },
            }
            k = k + 1;
        }
        match best {
            None => {
                assert(models(column_values@) + Seq::<ColumnModel>::empty() =~= models(
                    column_values@,
                ));
                return Some(column_values);
            },
            Some((index, k)) => {
                proof {
                    lemma_lowest_operator(suffix, 6);
                    lemma_in_operator(k as int);
                }
                let op_len = ops[k].len();
                let value_start = index + op_len;
                let and_pos = find_from_exec(&q, &and, start);
                proof {
                    lemma_find_from_skip(q@, and@, start as int, start as int);
                    lemma_find(suffix, " and "@);
                    if and_pos is Some {
                        assert(occurs_at(suffix, " and "@, and_pos.unwrap() - start));
                    }
                }
                let value_end = match and_pos {
                    Some(p) => p - start,
                    None => q.len() - start,
                };
                if value_start > value_end {
                    return None;
                }
                let parameterized = has_char_in(&q, start + value_start, start + value_end, '?');
                let column_name = string_from_chars(&q, start, start + index);
                let cv = ColumnValue {
                    column_name,
                    parameterized,
                    uses_in_value: k == 5,
                    is_part_of_where_clause: true,
                };
                proof {
                    assert(q@.subrange(start + value_start, start + value_end) =~= suffix.subrange(
                        value_start as int,
                        value_end as int,
                    ));
                    assert(q@.subrange(start as int, start + index) =~= suffix.take(
                        index as int,
                    ));
                }
                let ghost before = column_values@;
                column_values.push(cv);
                proof {
                    assert(models(column_values@) =~= models(before) + seq![cv@]);
                }
                match and_pos {
                    None => {
                        return Some(column_values);
                    },
                    Some(p) => {
                        proof {
                            assert(q@.skip(p + 5) =~= suffix.skip((p - start) + 5));
                            let rest = where_columns(suffix.skip((p - start) + 5));
                            if rest is Some {
                                assert(models(before) + (seq![cv@] + rest.unwrap()) =~= models(
                                    column_values@,
                                ) + rest.unwrap());
                            }
                        }
                        start = p + 5;
                    },
                }
            },
        }
    }
}

/// What [`lowest_operator`] reports is an occurrence of one of the
/// operators, and an operator of the where clause.
pub proof fn lemma_lowest_operator(s: Seq<char>, k: int)
    requires
        0 <= k <= 6,
    ensures
        match lowest_operator(s, k) {
            Some((p, j)) => 0 <= j < k && find(s, where_operators()[j]) == Some(p) && 0 <= p
                && p + where_operators()[j].len() <= s.len(),
            None => true,
        },
    decreases k,
{
    if k > 0 {
        lemma_lowest_operator(s, k - 1);
        lemma_find(s, where_operators()[k - 1]);
    }
}

/// The operator ` in ` is the last of the where-clause operators, and only
/// that one.
pub proof fn lemma_in_operator(k: int)
    requires
        0 <= k < 6,
    ensures
        (where_operators()[k] == " in "@) == (k == 5),
{
    reveal_strlit(" = ");
    reveal_strlit(" >= ");
    reveal_strlit(" > ");
    reveal_strlit(" <= ");
    reveal_strlit(" < ");
    reveal_strlit(" in ");
    if k != 5 {
        assert(where_operators()[k][1] != " in "@[1]);
    }
}

/// Extracts columns that are used in the where clause
pub fn columns_after_where(query: &str) -> (r: ExtractColumn)
    requires
        columns_after_where_spec(query@) is Some,
    ensures
        columns_after_where_spec(query@) == Some(models(r@)),
{
    match try_columns_after_where(query) {
        Some(v) => v,
        None => Vec::new(),
    }
}

// ---------------------------------------------------------------------------
// The kind of a query
// ---------------------------------------------------------------------------

/// The kinds of queries, each with its own way of reading a query.
#[derive(PartialEq, Eq, Debug, Clone, Copy, Structural)]
pub enum Crud {
    Select,
    Update,
    Insert,
    Delete,
    Truncate,
}

/// The word that a query of the given kind starts with.
pub open spec fn crud_start(c: Crud) -> Seq<char> {
    match c {
        Crud::Select => "select"@,
        Crud::Update => "update"@,
        Crud::Insert => "insert"@,
        Crud::Delete => "delete"@,
        Crud::Truncate => "truncate"@,
    }
}

/// The text after which a query of the given kind names its table.
pub open spec fn crud_table_after(c: Crud) -> Seq<char> {
    match c {
        Crud::Select => "from "@,
        Crud::Update => "update "@,
        Crud::Insert => "into "@,
        Crud::Delete => "from "@,
        Crud::Truncate => " "@,
    }
}

/// The kind of a query: the first of select, update, insert, delete and
/// truncate whose word the query starts with; `None` where it starts with
/// none of them.
pub open spec fn crud_of(q: Seq<char>) -> Option<Crud> {
    if starts_with(q, "select"@) {
        Some(Crud::Select)
    } else if starts_with(q, "update"@) {
        Some(Crud::Update)
    } else if starts_with(q, "insert"@) {
        Some(Crud::Insert)
    } else if starts_with(q, "delete"@) {
        Some(Crud::Delete)
    } else if starts_with(q, "truncate"@) {
        Some(Crud::Truncate)
    } else {
        None
    }
}

/// The columns that a query of the given kind names outside its where
/// clause; `None` where they cannot be read.
pub open spec fn crud_columns(c: Crud, q: Seq<char>) -> Option<Seq<ColumnModel>> {
    match c {
        Crud::Select => select_columns(q),
        Crud::Update => update_columns(q),
        Crud::Insert => insert_columns(q),
        Crud::Delete => Some(Seq::empty()),
        Crud::Truncate => if truncate_readable(q) {
            Some(Seq::empty())
        } else {
            None
        },
    }
}

/// The type of a query of the given kind, given whether its where clause
/// names the full primary key; `None` for a refused combination.
pub open spec fn crud_query_type(c: Crud, q: Seq<char>, full_pk: bool) -> Option<QueryType> {
    match c {
        Crud::Select => select_query_type(q, full_pk),
        Crud::Update => Some(QueryType::UpdateUnique),
        Crud::Insert => Some(QueryType::InsertUnique),
        Crud::Delete => Some(
            if full_pk {
                QueryType::DeleteUnique
            } else {
                QueryType::DeleteMultiple
            },
        ),
        Crud::Truncate => if full_pk {
            None
        } else {
            Some(QueryType::Truncate)
        },
    }
}

impl Crud {
    /// The word that a query of this kind starts with.
    pub fn crud_query_start(&self) -> (r: &'static str)
        ensures
            r@ == crud_start(*self),
    {
        match self {
            Crud::Select => Select.crud_query_start(),
            Crud::Update => Update.crud_query_start(),
            Crud::Insert => Insert.crud_query_start(),
            Crud::Delete => Delete.crud_query_start(),
            Crud::Truncate => Truncate.crud_query_start(),
        }
    }

    /// The text after which a query of this kind names its table.
    pub fn table_name_after(&self) -> (r: &'static str)
        ensures
            r@ == crud_table_after(*self),
    {
        match self {
            Crud::Select => Select.table_name_after(),
            Crud::Update => Update.table_name_after(),
            Crud::Insert => Insert.table_name_after(),
            Crud::Delete => Delete.table_name_after(),
            Crud::Truncate => Truncate.table_name_after(),
        }
    }

    /// The columns that a query of this kind names outside its where clause,
    /// or `None` where they cannot be read.
    pub fn try_column_clauses(&self, query: &str) -> (r: Option<ExtractColumn>)
        ensures
            match r {
                Some(v) => crud_columns(*self, query@) == Some(models(v@)),
                None => crud_columns(*self, query@) is None,
            },
    {
        match self {
            Crud::Select => try_select_columns(query),
            Crud::Update => try_update_columns(query),
            Crud::Insert => try_insert_columns(query),
            Crud::Delete => {
                let v = Delete.column_clauses(query);
                assert(models(v@) =~= Seq::<ColumnModel>::empty());
                Some(v)
            },
            Crud::Truncate => {
                if is_readable_truncate(query) {
                    let v = Truncate.column_clauses(query);
                    assert(models(v@) =~= Seq::<ColumnModel>::empty());
                    Some(v)
                } else {
                    None
                }
            },
        }
    }

    /// The columns that a query of this kind names outside its where clause.
    pub fn column_clauses(&self, query: &str) -> (r: ExtractColumn)
        requires
            crud_columns(*self, query@) is Some,
        ensures
            crud_columns(*self, query@) == Some(models(r@)),
    {
        match self.try_column_clauses(query) {
            Some(v) => v,
            None => Vec::new(),
        }
    }

    /// The type of a query of this kind, or `None` for a refused combination.
    pub fn try_query_type(&self, query: &str, full_pk: bool) -> (r: Option<QueryType>)
        ensures
            r == crud_query_type(*self, query@, full_pk),
    {
        match self {
            Crud::Select => try_select_query_type(query, full_pk),
            Crud::Update => Some(Update.query_type(query, full_pk)),
            Crud::Insert => Some(Insert.query_type(query, full_pk)),
            Crud::Delete => Some(Delete.query_type(query, full_pk)),
            Crud::Truncate => {
                if full_pk {
                    None
                } else {
                    Some(Truncate.query_type(query, full_pk))
                }
            },
        }
    }

    /// The type of a query of this kind; `full_pk` says whether its where
    /// clause names the full primary key.
    pub fn query_type(&self, query: &str, full_pk: bool) -> (r: QueryType)
        requires
            crud_query_type(*self, query@, full_pk) is Some,
        ensures
            crud_query_type(*self, query@, full_pk) == Some(r),
    {
        match self.try_query_type(query, full_pk) {
            Some(t) => t,
            None => QueryType::SelectMultiple,
        }
    }
}

/// The kind of a query, or `None` where it starts with no known word.
pub fn try_create_query_crud(query: &str) -> (r: Option<Crud>)
    ensures
        r == crud_of(query@),
{
    let q = chars_of(query);
    if starts_with_exec(&q, &chars_of("select")) {
        Some(Crud::Select)
    } else if starts_with_exec(&q, &chars_of("update")) {
        Some(Crud::Update)
    } else if starts_with_exec(&q, &chars_of("insert")) {
        Some(Crud::Insert)
    } else if starts_with_exec(&q, &chars_of("delete")) {
        Some(Crud::Delete)
    } else if starts_with_exec(&q, &chars_of("truncate")) {
        Some(Crud::Truncate)
    } else {
        None
    }
}

/// Dynamically choose from a given query the correct CRUD type
pub fn create_query_crud(query: &str) -> (r: Crud)
    requires
        crud_of(query@) is Some,
    ensures
        crud_of(query@) == Some(r),
{
    match try_create_query_crud(query) {
        Some(c) => c,
        None => Crud::Select,
    }
}

// ---------------------------------------------------------------------------
// The table and the columns of a query
// ---------------------------------------------------------------------------

/// The table that a query names: the word that follows the first occurrence
/// of the kind's table marker, up to the next space; `None` where the marker
/// is missing.
pub open spec fn table_name_spec(q: Seq<char>, c: Crud) -> Option<Seq<char>> {
    let after = crud_table_after(c);
    match find(q, after) {
        None => None,
        Some(i) => {
            let suffix = q.skip(i + after.len());
            let end = match find(suffix, " "@) {
                Some(e) => e,
                None => suffix.len() as int,
            };
            Some(suffix.take(end))
        },
    }
}

/// The table that a query names, or `None` where it names none.
pub fn try_extract_table_name<'a>(query: &'a str, crud: &Crud) -> (r: Option<&'a str>)
    ensures
        match r {
            Some(t) => table_name_spec(query@, *crud) == Some(t@),
            None => table_name_spec(query@, *crud) is None,
        },
{
    let q = chars_of(query);
    let after = chars_of(crud.table_name_after());
    let index = match find_exec(&q, &after) {
        Some(i) => i,
        None => return None,
    };
    proof {
        lemma_find(q@, after@);
        assert(occurs_at(q@, after@, index as int));
    }
    let n = q.len();
    assert(index + after@.len() <= n);
    let start = index + after.len();
    let suffix = query.substring_char(start, n);
    assert(suffix@ =~= q@.skip(start as int));
    let suffix_chars = chars_of(suffix);
    let end = match find_exec(&suffix_chars, &chars_of(" ")) {
        Some(e) => e,
        None => suffix_chars.len(),
    };
    proof {
        lemma_find(suffix@, " "@);
    }
    Some(suffix.substring_char(0, end))
}

/// Extracts a table name from a query
pub fn extract_table_name<'a>(query: &'a str, crud: &Crud) -> (r: &'a str)
    requires
        table_name_spec(query@, *crud) is Some,
    ensures
        table_name_spec(query@, *crud) == Some(r@),
{
    match try_extract_table_name(query, crud) {
        Some(t) => t,
        None => query,
    }
}

/// The columns that a query uses: those outside its where clause (read from
/// the query without its limit and where clauses), then those of its where
/// clause (read from the query without its limit clause); `None` where
/// either cannot be read.
pub open spec fn extract_columns_spec(q: Seq<char>, c: Crud) -> Option<Seq<ColumnModel>> {
    let (query, without_where) = split_query_spec(q);
    match (crud_columns(c, without_where), columns_after_where_spec(query)) {
        (Some(a), Some(b)) => Some(a + b),
        _ => None,
    }
}

/// The columns that a query uses, or `None` where they cannot be read.
pub fn try_extract_columns(query: &str, crud: &Crud) -> (r: Option<ExtractColumn>)
    ensures
        match r {
            Some(v) => extract_columns_spec(query@, *crud) == Some(models(v@)),
            None => extract_columns_spec(query@, *crud) is None,
        },
{
    let (q, without_where) = split_query(query);
    let mut clauses = match crud.try_column_clauses(without_where) {
        Some(v) => v,
        None => return None,
    };
    let mut after_where = match try_columns_after_where(q) {
        Some(v) => v,
        None => return None,
    };
    let ghost a = clauses@;
    let ghost b = after_where@;
    clauses.append(&mut after_where);
    assert(models(clauses@) =~= models(a) + models(b));
    Some(clauses)
}

/// Extracts the used columns in a query
/// Note: cant use a set because the same order needs to be remained
pub fn extract_columns(query: &str, crud: &Crud) -> (r: ExtractColumn)
    requires
        extract_columns_spec(query@, *crud) is Some,
    ensures
        extract_columns_spec(query@, *crud) == Some(models(r@)),
{
    match try_extract_columns(query, crud) {
        Some(v) => v,
        None => Vec::new(),
    }
}

} // verus!
