//! Checking a query against the columns of its table, and the meta data that
//! the check yields.
use vstd::prelude::*;

use crate::capitalizing::{struct_name_of_table, try_table_name_to_struct_name};
use crate::crud::{
    crud_of, crud_query_type, extract_columns_spec, models, table_name_spec, try_create_query_crud,
    try_extract_columns, try_extract_table_name, ColumnModel, ColumnValue, Crud, ExtractColumn,
    QueryType,
};
use crate::decimal::{decimal, decimal_exec, parse_i32, parse_i32_exec};
use crate::schema::{kind_of, part_of_pk, Columns, ColumnsModel};
use crate::supported_data_types::{data_type_of, CassandraDataType};
use crate::text::{
    chars_of, contains, contains_exec, ends_with, ends_with_exec, find, find_exec, lemma_contains_prefix, lemma_find,
    replace, replace_exec, starts_with, starts_with_exec,
};

verus! {

// ---------------------------------------------------------------------------
// Time to live
// ---------------------------------------------------------------------------

/// The leftmost match of the regular expression ` using ttl\s+\b(\w+)\b` in
/// a query (what `regex::Regex::find` returns for it).
pub uninterp spec fn ttl_regex_match(query: Seq<char>) -> Option<Seq<char>>;

/// Calls `regex::Regex::find` with the regular expression
/// ` using ttl\s+\b(\w+)\b` on the query and returns the text of the match;
/// the contract names that text `ttl_regex_match`, a function of the query
/// alone, and states that a match is a part of the query that begins with
/// the literal ` using ttl` with which the expression begins.
#[verifier::external_body]
fn find_ttl_clause(query: &str) -> (r: Option<String>)
    ensures
        match r {
            Some(m) => ttl_regex_match(query@) == Some(m@),
            None => ttl_regex_match(query@) is None,
        },
        r matches Some(m) ==> starts_with(m@, " using ttl"@) && contains(query@, m@),
{
    let matcher = regex::Regex::new(" using ttl\\s+\\b(\\w+)\\b").unwrap();
    matcher.find(query).map(|m| m.as_str().to_string())
}

/// The clause that sets a time to live, as a query must end with it.
pub open spec fn ttl_clause(ttl: i32) -> Seq<char> {
    " using ttl "@ + decimal(ttl as int)
}

/// Why a query was refused.
#[derive(Debug, PartialEq, Eq)]
pub enum QueryError {
    /// The query starts with none of select, update, insert, delete, truncate.
    UnknownQueryKind,
    /// The query names no table.
    NoTableName,
    /// The table does not exist or has no columns.
    TableNotFound,
    /// The time to live of the query is not an `i32`.
    TtlNotANumber,
    /// The time to live clause is not at the end of the query.
    TtlNotAtEnd,
    /// A time to live is set by a query that is not an insert.
    TtlOutsideInsert,
    /// The columns of the query cannot be read.
    UnreadableQuery,
    /// An insert query does not give a value to every column.
    InsertMissingValues,
    /// The query uses a column that the table does not have.
    IllegalColumn(String),
    /// A parameterized column has a data type that is not supported.
    UnsupportedDataType(String),
    /// The database reports a column kind that is not known.
    InvalidColumnKind(String),
    /// The where clause of the query cannot be cut out of it.
    WhereClauseOutOfRange,
    /// The query both counts and limits.
    CountAndLimit,
    /// The query combines parts that its kind refuses.
    RefusedQueryType,
    /// The table name has no struct name.
    InvalidStructName,
}

/// The mathematical model of a [`QueryError`].
pub ghost enum QueryErrorModel {
    UnknownQueryKind,
    NoTableName,
    TableNotFound,
    TtlNotANumber,
    TtlNotAtEnd,
    TtlOutsideInsert,
    UnreadableQuery,
    InsertMissingValues,
    IllegalColumn(Seq<char>),
    UnsupportedDataType(Seq<char>),
    InvalidColumnKind(Seq<char>),
    WhereClauseOutOfRange,
    CountAndLimit,
    RefusedQueryType,
    InvalidStructName,
}

impl View for QueryError {
    type V = QueryErrorModel;

    open spec fn view(&self) -> QueryErrorModel {
        match self {
            QueryError::UnknownQueryKind => QueryErrorModel::UnknownQueryKind,
            QueryError::NoTableName => QueryErrorModel::NoTableName,
            QueryError::TableNotFound => QueryErrorModel::TableNotFound,
            QueryError::TtlNotANumber => QueryErrorModel::TtlNotANumber,
            QueryError::TtlNotAtEnd => QueryErrorModel::TtlNotAtEnd,
            QueryError::TtlOutsideInsert => QueryErrorModel::TtlOutsideInsert,
            QueryError::UnreadableQuery => QueryErrorModel::UnreadableQuery,
            QueryError::InsertMissingValues => QueryErrorModel::InsertMissingValues,
            QueryError::IllegalColumn(s) => QueryErrorModel::IllegalColumn(s@),
            QueryError::UnsupportedDataType(s) => QueryErrorModel::UnsupportedDataType(s@),
            QueryError::InvalidColumnKind(s) => QueryErrorModel::InvalidColumnKind(s@),
            QueryError::WhereClauseOutOfRange => QueryErrorModel::WhereClauseOutOfRange,
            QueryError::CountAndLimit => QueryErrorModel::CountAndLimit,
            QueryError::RefusedQueryType => QueryErrorModel::RefusedQueryType,
            QueryError::InvalidStructName => QueryErrorModel::InvalidStructName,
        }
    }
}

/// What a match of the time-to-live expression makes of a query: nothing
/// without a match; otherwise the query without its time-to-live clause and
/// the time to live, or the reason the clause is refused.
pub open spec fn ttl_from_match(query: Seq<char>, m: Option<Seq<char>>) -> Result<
    Option<(Seq<char>, i32)>,
    QueryErrorModel,
> {
    match m {
        None => Ok(None),
        Some(m) => match parse_i32(replace(m, " using ttl "@, Seq::empty())) {
            None => Err(QueryErrorModel::TtlNotANumber),
            Some(ttl) => {
                let clause = ttl_clause(ttl);
                if !ends_with(query, clause) {
                    Err(QueryErrorModel::TtlNotAtEnd)
                } else if !starts_with(query, "insert into "@) {
                    Err(QueryErrorModel::TtlOutsideInsert)
                } else {
                    Ok(Some((replace(query, clause, Seq::empty()), ttl)))
                }
            },
        },
    }
}

/// The model of the outcome of reading a time to live.
pub open spec fn ttl_outcome(r: Result<Option<(String, i32)>, QueryError>) -> Result<
    Option<(Seq<char>, i32)>,
    QueryErrorModel,
> {
    match r {
        Ok(Some((q, t))) => Ok(Some((q@, t))),
        Ok(None) => Ok(None),
        Err(e) => Err(e@),
    }
}

/// Reads the time to live of a query from the text that the time-to-live
/// expression matched in it (`None` when it matched nothing).
pub fn ttl_from_clause(query: &str, matched: Option<&str>) -> (r: Result<
    Option<(String, i32)>,
    QueryError,
>)
    ensures
        ttl_outcome(r) == ttl_from_match(
            query@,
            match matched {
                Some(m) => Some(m@),
                None => None,
            },
        ),
{
    let m = match matched {
        None => return Ok(None),
        Some(m) => m,
    };
    let using_ttl = chars_of(" using ttl ");
    proof {
        reveal_strlit(" using ttl ");
    }
    let empty: Vec<char> = Vec::new();
    let number = replace_exec(&chars_of(m), &using_ttl, &empty);
    assert(empty@ =~= Seq::<char>::empty());
    let ttl = match parse_i32_exec(&number) {
        None => return Err(QueryError::TtlNotANumber),
        Some(t) => t,
    };
    let mut clause = chars_of(" using ttl ");
    let mut digits = decimal_exec(ttl);
    clause.append(&mut digits);
    let q = chars_of(query);
    if !ends_with_exec(&q, &clause) {
        return Err(QueryError::TtlNotAtEnd);
    }
    if !starts_with_exec(&q, &chars_of("insert into ")) {
        return Err(QueryError::TtlOutsideInsert);
    }
    proof {
        assert(clause@.len() > 0);
    }
    let without = replace_exec(&q, &clause, &empty);
    let without_ttl = crate::text::string_from_chars(&without, 0, without.len());
    assert(without@.subrange(0, without@.len() as int) =~= without@);
    Ok(Some((without_ttl, ttl)))
}

/// Reads the time to live that an insert query sets with `using ttl`:
/// `Ok(None)` when it sets none, otherwise the query without the clause and
/// the time to live, or the reason the clause is refused.
pub fn extract_ttl(query: &str) -> (r: Result<Option<(String, i32)>, QueryError>)
    ensures
        ttl_outcome(r) == ttl_from_match(query@, ttl_regex_match(query@)),
        !contains(query@, " using ttl"@) ==> ttl_regex_match(query@) is None && r matches Ok(None),
{
    let found = find_ttl_clause(query);
    proof {
        if found is Some {
            lemma_contains_prefix(query@, found->Some_0@, " using ttl"@);
        }
    }
    match found {
        Some(m) => ttl_from_clause(query, Some(m.as_str())),
        None => ttl_from_clause(query, None),
    }
}

// ---------------------------------------------------------------------------
// Columns of the query and of the table
// ---------------------------------------------------------------------------

/// The models of a table's columns.
pub open spec fn table_models(v: Seq<Columns>) -> Seq<ColumnsModel> {
    v.map_values(|c: Columns| c@)
}

/// The first table column at or after `j` named `name`.
pub open spec fn first_named(cols: Seq<ColumnsModel>, name: Seq<char>, j: int) -> Option<int>
    decreases cols.len() - j,
{
    if j < 0 || j >= cols.len() {
        None
    } else if cols[j].column_name == name {
        Some(j)
    } else {
        first_named(cols, name, j + 1)
    }
}

/// The first table column named `name`.
pub open spec fn column_named(cols: Seq<ColumnsModel>, name: Seq<char>) -> Option<int> {
    first_named(cols, name, 0)
}

/// `first_named` reports the first column of that name at or after `j`.
pub proof fn lemma_first_named(cols: Seq<ColumnsModel>, name: Seq<char>, j: int)
    requires
        0 <= j,
    ensures
        match first_named(cols, name, j) {
            Some(k) => j <= k < cols.len() && cols[k].column_name == name && forall|m: int|
                j <= m < k ==> cols[m].column_name != name,
            None => forall|m: int| j <= m < cols.len() ==> cols[m].column_name != name,
        },
    decreases cols.len() - j,
{
    if j < cols.len() && cols[j].column_name != name {
        lemma_first_named(cols, name, j + 1);
    }
}

/// The first column that the query uses and the table does not have.
pub open spec fn illegal_column(used: Seq<ColumnModel>, cols: Seq<ColumnsModel>) -> Option<
    Seq<char>,
>
    decreases used.len(),
{
    if used.len() == 0 {
        None
    } else {
        match illegal_column(used.drop_last(), cols) {
            Some(n) => Some(n),
            None => if column_named(cols, used.last().column_name) is None {
                Some(used.last().column_name)
            } else {
                None
            },
        }
    }
}

/// For each parameterized column that the query uses, in order, the first
/// table column of that name.
pub open spec fn parameterized_table_columns(used: Seq<ColumnModel>, cols: Seq<ColumnsModel>) -> Seq<
    ColumnsModel,
>
    decreases used.len(),
{
    if used.len() == 0 {
        Seq::empty()
    } else {
        let prev = parameterized_table_columns(used.drop_last(), cols);
        let c = used.last();
        if c.parameterized {
            match column_named(cols, c.column_name) {
                Some(j) => prev.push(cols[j]),
                None => prev,
            }
        } else {
            prev
        }
    }
}

/// The data types of table columns, or the first type name that is not
/// supported.
pub open spec fn data_types(cols: Seq<ColumnsModel>) -> Result<Seq<CassandraDataType>, Seq<char>>
    decreases cols.len(),
{
    if cols.len() == 0 {
        Ok(Seq::empty())
    } else {
        match data_types(cols.drop_last()) {
            Err(e) => Err(e),
            Ok(t) => match data_type_of(cols.last().data_type) {
                None => Err(cols.last().data_type),
                Some(d) => Ok(t.push(d)),
            },
        }
    }
}

/// The first kind name of the table's columns that is not known.
pub open spec fn invalid_kind(cols: Seq<ColumnsModel>) -> Option<Seq<char>>
    decreases cols.len(),
{
    if cols.len() == 0 {
        None
    } else {
        match invalid_kind(cols.drop_last()) {
            Some(k) => Some(k),
            None => if kind_of(cols.last().kind) is None {
                Some(cols.last().kind)
            } else {
                None
            },
        }
    }
}

/// Whether a table column belongs to the primary key.
pub open spec fn in_pk(c: ColumnsModel) -> bool {
    match kind_of(c.kind) {
        Some(k) => part_of_pk(k),
        None => false,
    }
}

/// The names of the table's primary key columns, in order.
pub open spec fn pk_names(cols: Seq<ColumnsModel>) -> Seq<Seq<char>>
    decreases cols.len(),
{
    if cols.len() == 0 {
        Seq::empty()
    } else if in_pk(cols.last()) {
        pk_names(cols.drop_last()).push(cols.last().column_name)
    } else {
        pk_names(cols.drop_last())
    }
}

/// The names of the columns that a query uses, in order.
pub open spec fn used_names(used: Seq<ColumnModel>) -> Seq<Seq<char>> {
    used.map_values(|c: ColumnModel| c.column_name)
}

/// How often `c` occurs in `s`.
pub open spec fn count_char(s: Seq<char>, c: char) -> nat
    decreases s.len(),
{
    if s.len() == 0 {
        0
    } else {
        count_char(s.drop_last(), c) + if s.last() == c {
            1nat
        } else {
            0nat
        }
    }
}

/// The models of a list of strings.
pub open spec fn names(v: Seq<String>) -> Seq<Seq<char>> {
    v.map_values(|s: String| s@)
}

/// The models of a list of borrowed table columns.
pub open spec fn borrowed_models(v: Seq<&Columns>) -> Seq<ColumnsModel> {
    v.map_values(|c: &Columns| c@)
}

/// The first table column at or after `from` named `name`.
fn column_index(columns: &Vec<Columns>, name: &String) -> (r: Option<usize>)
    ensures
        crate::text::opt_pos(r) == column_named(table_models(columns@), name@),
{
    let ghost cols = table_models(columns@);
    let mut j: usize = 0;
    while j < columns.len()
        invariant
            j <= columns.len(),
            cols == table_models(columns@),
            column_named(cols, name@) == first_named(cols, name@, j as int),
        decreases columns.len() - j,
    {
        assert(cols[j as int] == columns@[j as int]@);
        if columns[j].column_name == *name {
            return Some(j);
        }
        j = j + 1;
    }
    None
}

/// Checks if all the used columns in the query are present in the table
/// itself and after that, keeps only the table columns of the parameterized
/// columns; the first column that the table lacks is refused.
pub fn check_subset_and_keep_parameterized_columns<'a>(
    columns: &'a Vec<Columns>,
    columns_used_in_query: &Vec<ColumnValue>,
) -> (r: Result<Vec<&'a Columns>, QueryError>)
    ensures
        match r {
            Ok(v) => illegal_column(models(columns_used_in_query@), table_models(columns@)) is None
                && borrowed_models(v@) == parameterized_table_columns(
                models(columns_used_in_query@),
                table_models(columns@),
            ),
            Err(e) => match illegal_column(
                models(columns_used_in_query@),
                table_models(columns@),
            ) {
                Some(n) => e@ == QueryErrorModel::IllegalColumn(n),
                None => false,
            },
        },
{
    let ghost used = models(columns_used_in_query@);
    let ghost cols = table_models(columns@);
    let mut kept: Vec<&'a Columns> = Vec::new();
    let mut i: usize = 0;
    while i < columns_used_in_query.len()
        invariant
            i <= columns_used_in_query.len(),
            used == models(columns_used_in_query@),
            cols == table_models(columns@),
            illegal_column(used.take(i as int), cols) is None,
            borrowed_models(kept@) == parameterized_table_columns(used.take(i as int), cols),
        decreases columns_used_in_query.len() - i,
    {
        let cq = &columns_used_in_query[i];
        assert(used.take(i + 1).drop_last() =~= used.take(i as int));
        assert(used.take(i + 1).last() == cq@);
        match column_index(columns, &cq.column_name) {
            None => {
                proof {
                    lemma_illegal_prefix(used, cols, i + 1);
                }
                return Err(QueryError::IllegalColumn(cq.column_name.clone()));
            },
            Some(j) => {
                proof {
                    lemma_first_named(cols, cq.column_name@, 0);
                }
                if cq.parameterized {
                    let ghost before = kept@;
                    kept.push(&columns[j]);
                    assert(borrowed_models(kept@) =~= borrowed_models(before).push(cols[j as int]));
                }
            },
        }
        i = i + 1;
    }
    assert(used.take(i as int) =~= used);
    Ok(kept)
}

/// A column missing from a prefix of the used columns is the first missing
/// column of all of them.
proof fn lemma_illegal_prefix(used: Seq<ColumnModel>, cols: Seq<ColumnsModel>, k: int)
    requires
        0 <= k <= used.len(),
        illegal_column(used.take(k), cols) is Some,
    ensures
        illegal_column(used, cols) == illegal_column(used.take(k), cols),
    decreases used.len() - k,
{
    if k < used.len() {
        assert(used.take(k + 1).drop_last() =~= used.take(k));
        lemma_illegal_prefix(used, cols, k + 1);
    } else {
        assert(used.take(k) =~= used);
    }
}

/// The data types of table columns, or the first type name that is not
/// supported.
fn data_types_of(cols: &Vec<&Columns>) -> (r: Result<Vec<CassandraDataType>, QueryError>)
    ensures
        match r {
            Ok(t) => data_types(borrowed_models(cols@)) == Ok::<
                Seq<CassandraDataType>,
                Seq<char>,
            >(t@),
            Err(e) => match data_types(borrowed_models(cols@)) {
                Err(n) => e@ == QueryErrorModel::UnsupportedDataType(n),
                Ok(_) => false,
            },
        },
{
    let ghost m = borrowed_models(cols@);
    let mut types: Vec<CassandraDataType> = Vec::new();
    let mut i: usize = 0;
    while i < cols.len()
        invariant
            i <= cols.len(),
            m == borrowed_models(cols@),
            data_types(m.take(i as int)) == Ok::<Seq<CassandraDataType>, Seq<char>>(types@),
        decreases cols.len() - i,
    {
        assert(m.take(i + 1).drop_last() =~= m.take(i as int));
        assert(m.take(i + 1).last() == cols@[i as int]@);
        match CassandraDataType::try_new(cols[i].data_type.as_str()) {
            None => {
                proof {
                    lemma_data_types_prefix(m, i + 1);
                }
                return Err(QueryError::UnsupportedDataType(cols[i].data_type.clone()));
            },
            Some(t) => {
                types.push(t);
            },
        }
        i = i + 1;
    }
    assert(m.take(i as int) =~= m);
    Ok(types)
}

/// An unsupported type in a prefix of the columns is the first of all of
/// them.
proof fn lemma_data_types_prefix(cols: Seq<ColumnsModel>, k: int)
    requires
        0 <= k <= cols.len(),
        data_types(cols.take(k)) is Err,
    ensures
        data_types(cols) == data_types(cols.take(k)),
    decreases cols.len() - k,
{
    if k < cols.len() {
        assert(cols.take(k + 1).drop_last() =~= cols.take(k));
        lemma_data_types_prefix(cols, k + 1);
    } else {
        assert(cols.take(k) =~= cols);
    }
}

/// An unknown kind in a prefix of the columns is the first of all of them.
proof fn lemma_invalid_kind_prefix(cols: Seq<ColumnsModel>, k: int)
    requires
        0 <= k <= cols.len(),
        invalid_kind(cols.take(k)) is Some,
    ensures
        invalid_kind(cols) == invalid_kind(cols.take(k)),
    decreases cols.len() - k,
{
    if k < cols.len() {
        assert(cols.take(k + 1).drop_last() =~= cols.take(k));
        lemma_invalid_kind_prefix(cols, k + 1);
    } else {
        assert(cols.take(k) =~= cols);
    }
}

/// The names of the table's primary key columns, or the first kind name
/// that is not known.
fn pk_column_names(columns: &Vec<Columns>) -> (r: Result<Vec<String>, QueryError>)
    ensures
        match r {
            Ok(v) => invalid_kind(table_models(columns@)) is None && names(v@) == pk_names(
                table_models(columns@),
            ),
            Err(e) => match invalid_kind(table_models(columns@)) {
                Some(k) => e@ == QueryErrorModel::InvalidColumnKind(k),
                None => false,
            },
        },
{
    let ghost cols = table_models(columns@);
    let mut v: Vec<String> = Vec::new();
    let mut i: usize = 0;
    while i < columns.len()
        invariant
            i <= columns.len(),
            cols == table_models(columns@),
            invalid_kind(cols.take(i as int)) is None,
            names(v@) == pk_names(cols.take(i as int)),
        decreases columns.len() - i,
    {
        assert(cols.take(i + 1).drop_last() =~= cols.take(i as int));
        assert(cols.take(i + 1).last() == columns@[i as int]@);
        match columns[i].try_kind() {
            None => {
                proof {
                    lemma_invalid_kind_prefix(cols, i + 1);
                }
                return Err(QueryError::InvalidColumnKind(columns[i].kind.clone()));
            },
            Some(k) => {
                if k.is_part_of_pk() {
                    let ghost before = v@;
                    v.push(columns[i].column_name.clone());
                    assert(names(v@) =~= names(before).push(columns@[i as int].column_name@));
                }
            },
        }
        i = i + 1;
    }
    assert(cols.take(i as int) =~= cols);
    Ok(v)
}

/// Whether `v` holds a string equal to `s`.
fn holds_name(v: &Vec<String>, s: &String) -> (b: bool)
    ensures
        b == names(v@).contains(s@),
{
    let mut i: usize = 0;
    while i < v.len()
        invariant
            i <= v.len(),
            forall|j: int| 0 <= j < i ==> names(v@)[j] != s@,
        decreases v.len() - i,
    {
        assert(names(v@)[i as int] == v@[i as int]@);
        if v[i] == *s {
            return true;
        }
        i = i + 1;
    }
    false
}

/// Whether every string of `a` is also in `b`.
fn all_held(a: &Vec<String>, b: &Vec<String>) -> (r: bool)
    ensures
        r == names(a@).to_set().subset_of(names(b@).to_set()),
{
    let mut i: usize = 0;
    while i < a.len()
        invariant
            i <= a.len(),
            forall|j: int| 0 <= j < i ==> names(b@).contains(#[trigger] names(a@)[j]),
        decreases a.len() - i,
    {
        assert(names(a@)[i as int] == a@[i as int]@);
        if !holds_name(b, &a[i]) {
            assert(names(a@).to_set().contains(names(a@)[i as int]));
            return false;
        }
        i = i + 1;
    }
    assert forall|x: Seq<char>| names(a@).to_set().contains(x) implies names(b@).to_set().contains(
        x,
    ) by {
        let j = choose|j: int| 0 <= j < names(a@).len() && names(a@)[j] == x;
        assert(names(b@).contains(names(a@)[j]));
    }
    true
}

/// Whether `a` and `b` hold the same strings.
pub fn same_names_exec(a: &Vec<String>, b: &Vec<String>) -> (r: bool)
    ensures
        r == (names(a@).to_set() == names(b@).to_set()),
{
    let ab = all_held(a, b);
    let ba = all_held(b, a);
    proof {
        if ab && ba {
            assert(names(a@).to_set() =~= names(b@).to_set());
        }
    }
    ab && ba
}

/// The number of different strings in `v`.
fn distinct_count(v: &Vec<String>) -> (r: usize)
    ensures
        r == names(v@).to_set().len(),
{
    let mut distinct: Vec<String> = Vec::new();
    let mut i: usize = 0;
    while i < v.len()
        invariant
            i <= v.len(),
            distinct@.len() <= i,
            names(distinct@).no_duplicates(),
            names(distinct@).to_set() == names(v@).take(i as int).to_set(),
        decreases v.len() - i,
    {
        let ghost before = distinct@;
        assert(names(v@).take(i + 1) =~= names(v@).take(i as int).push(v@[i as int]@));
        proof {
            names(v@).take(i as int).lemma_push_to_set_commute(v@[i as int]@);
        }
        if !holds_name(&distinct, &v[i]) {
            distinct.push(v[i].clone());
            assert(names(distinct@) =~= names(before).push(v@[i as int]@));
            proof {
                names(before).lemma_push_to_set_commute(v@[i as int]@);
            }
        } else {
            assert(names(v@).take(i + 1).to_set() =~= names(v@).take(i as int).to_set());
        }
        i = i + 1;
    }
    assert(names(v@).take(i as int) =~= names(v@));
    proof {
        names(distinct@).unique_seq_to_set();
    }
    distinct.len()
}

/// How often `c` occurs in `v[from..to]`.
fn count_char_in(v: &Vec<char>, from: usize, to: usize, c: char) -> (r: usize)
    requires
        from <= to <= v.len(),
    ensures
        r == count_char(v@.subrange(from as int, to as int), c),
{
    let mut n: usize = 0;
    let mut i: usize = from;
    while i < to
        invariant
            from <= i <= to <= v.len(),
            n == count_char(v@.subrange(from as int, i as int), c),
            n <= i - from,
        decreases to - i,
    {
        assert(v@.subrange(from as int, i + 1).drop_last() =~= v@.subrange(from as int, i as int));
        if v[i] == c {
            n = n + 1;
        }
        i = i + 1;
    }
    n
}

// ---------------------------------------------------------------------------
// The meta data of a query
// ---------------------------------------------------------------------------

/// Meta data of a query
#[derive(PartialEq, Debug)]
pub struct QueryMetaData {
    /// The columns that are used in this query
    pub extracted_columns: ExtractColumn,
    /// Parameterized columns
    pub parameterized_columns_data_types: Vec<CassandraDataType>,
    pub query_type: QueryType,
    /// The corresponding Rust struct name of the query
    pub struct_name: String,
    /// Only true if the query is limited
    pub limited: bool,
    pub ttl: Option<i32>,
}

/// The mathematical model of [`QueryMetaData`].
pub ghost struct QueryMetaDataModel {
    pub extracted_columns: Seq<ColumnModel>,
    pub parameterized_columns_data_types: Seq<CassandraDataType>,
    pub query_type: QueryType,
    pub struct_name: Seq<char>,
    pub limited: bool,
    pub ttl: Option<i32>,
}

impl View for QueryMetaData {
    type V = QueryMetaDataModel;

    open spec fn view(&self) -> QueryMetaDataModel {
        QueryMetaDataModel {
            extracted_columns: models(self.extracted_columns@),
            parameterized_columns_data_types: self.parameterized_columns_data_types@,
            query_type: self.query_type,
            struct_name: self.struct_name@,
            limited: self.limited,
            ttl: self.ttl,
        }
    }
}

/// Where the where clause of a query ends when its `=` signs are counted:
/// at its first ` limit `, else just before its last character; `None`
/// where that last character is not a single byte, so that no string slice
/// ends there.
pub open spec fn where_end(q: Seq<char>) -> Option<int> {
    match find(q, " limit "@) {
        Some(l) => Some(l),
        None => if q.len() > 0 && (q.last() as u32) < 128 {
            Some(q.len() - 1)
        } else {
            None
        },
    }
}

/// Whether a query selects a single row by its primary key: with a where
/// clause, when that clause holds one `=` for each primary key column;
/// without one, when the query ends with `limit 1`.
pub open spec fn selecting_unique(q: Seq<char>, pk_count: nat) -> Result<bool, QueryErrorModel> {
    match find(q, " where "@) {
        Some(start) => match where_end(q) {
            None => Err(QueryErrorModel::WhereClauseOutOfRange),
            Some(end) => if start > end {
                Err(QueryErrorModel::WhereClauseOutOfRange)
            } else {
                Ok(count_char(q.subrange(start, end), '=') == pk_count)
            },
        },
        None => Ok(ends_with(q, "limit 1"@)),
    }
}

/// The meta data of a query of kind `crud` on table `table`, read from the
/// query `q` without its time-to-live clause, against the table's columns.
pub open spec fn checked_meta_data(
    q: Seq<char>,
    ttl: Option<i32>,
    crud: Crud,
    table: Seq<char>,
    cols: Seq<ColumnsModel>,
    camel_case_to_snake_case: bool,
) -> Result<QueryMetaDataModel, QueryErrorModel> {
    match extract_columns_spec(q, crud) {
        None => Err(QueryErrorModel::UnreadableQuery),
        Some(used) => if starts_with(q, "insert"@) && used.len() != cols.len() {
            Err(QueryErrorModel::InsertMissingValues)
        } else {
            match illegal_column(used, cols) {
                Some(n) => Err(QueryErrorModel::IllegalColumn(n)),
                None => match data_types(parameterized_table_columns(used, cols)) {
                    Err(n) => Err(QueryErrorModel::UnsupportedDataType(n)),
                    Ok(types) => {
                        let types = if ends_with(q, " limit ?"@) {
                            types.push(CassandraDataType::Int)
                        } else {
                            types
                        };
                        match invalid_kind(cols) {
                            Some(k) => Err(QueryErrorModel::InvalidColumnKind(k)),
                            None => {
                                let pk = pk_names(cols).to_set();
                                let all_pk = used_names(used).to_set() == pk;
                                match selecting_unique(q, pk.len()) {
                                    Err(e) => Err(e),
                                    Ok(unique) => if contains(q, "count("@) && contains(
                                        q,
                                        " limit "@,
                                    ) {
                                        Err(QueryErrorModel::CountAndLimit)
                                    } else {
                                        match crud_query_type(crud, q, all_pk && unique) {
                                            None => Err(QueryErrorModel::RefusedQueryType),
                                            Some(query_type) => match struct_name_of_table(
                                                table,
                                                camel_case_to_snake_case,
                                            ) {
                                                None => Err(QueryErrorModel::InvalidStructName),
                                                Some(struct_name) => Ok(
                                                    QueryMetaDataModel {
                                                        extracted_columns: used,
                                                        parameterized_columns_data_types: types,
                                                        query_type,
                                                        struct_name,
                                                        limited: contains(q, " limit "@),
                                                        ttl,
                                                    },
                                                ),
                                            },
                                        }
                                    },
                                }
                            },
                        }
                    },
                },
            }
        },
    }
}

/// The meta data of a query, read against the columns of its table; or the
/// reason the query is refused.
pub open spec fn meta_data(
    query: Seq<char>,
    cols: Seq<ColumnsModel>,
    camel_case_to_snake_case: bool,
) -> Result<QueryMetaDataModel, QueryErrorModel> {
    match crud_of(query) {
        None => Err(QueryErrorModel::UnknownQueryKind),
        Some(crud) => match table_name_spec(query, crud) {
            None => Err(QueryErrorModel::NoTableName),
            Some(table) => if cols.len() == 0 {
                Err(QueryErrorModel::TableNotFound)
            } else {
                match ttl_from_match(query, ttl_regex_match(query)) {
                    Err(e) => Err(e),
                    Ok(None) => checked_meta_data(
                        query,
                        None,
                        crud,
                        table,
                        cols,
                        camel_case_to_snake_case,
                    ),
                    Ok(Some((q, ttl))) => checked_meta_data(
                        q,
                        Some(ttl),
                        crud,
                        table,
                        cols,
                        camel_case_to_snake_case,
                    ),
                }
            },
        },
    }
}

/// A query of the kind `crud` (read from the query itself) whose time to
/// live is read without error keeps its text, unless it is an insert.
proof fn lemma_no_ttl_outside_insert(query: Seq<char>, crud: Crud)
    requires
        crud_of(query) == Some(crud),
        crud == Crud::Select || crud == Crud::Delete,
    ensures
        ttl_from_match(query, ttl_regex_match(query)) matches Ok(t) ==> t is None,
{
    reveal_strlit("select");
    reveal_strlit("delete");
    reveal_strlit("insert into ");
    if let Ok(Some(_)) = ttl_from_match(query, ttl_regex_match(query)) {
        assert(starts_with(query, "insert into "@));
        assert(query[0] == 'i') by {
            assert(query.take(12)[0] == "insert into "@[0]);
        }
        if crud == Crud::Select {
            assert(query.take(6)[0] == "select"@[0]);
        } else {
            assert(query.take(6)[0] == "delete"@[0]);
        }
    }
}

/// A select query that is accepted and ends with ` limit 1` is unique by
/// its limit, whether or not it has a where clause.
pub proof fn lemma_select_limit_one(
    query: Seq<char>,
    cols: Seq<ColumnsModel>,
    camel_case_to_snake_case: bool,
)
    requires
        meta_data(query, cols, camel_case_to_snake_case) is Ok,
        starts_with(query, "select"@),
        ends_with(query, " limit 1"@),
    ensures
        meta_data(query, cols, camel_case_to_snake_case)->Ok_0.query_type
            == QueryType::SelectUniqueByLimit,
{
    assert(crud_of(query) == Some(Crud::Select));
    lemma_no_ttl_outside_insert(query, Crud::Select);
}

/// A query is unique (one row selected or deleted) only where its where
/// clause uses exactly the primary key columns and holds one `=` for each
/// of them: a range or an `in` in place of an `=` on a key column leaves
/// fewer `=` than key columns, and the query then selects or deletes
/// several rows. A query without a where clause is unique only where it
/// ends with `limit 1`.
pub proof fn lemma_unique_binds_full_key(
    query: Seq<char>,
    cols: Seq<ColumnsModel>,
    camel_case_to_snake_case: bool,
)
    requires
        meta_data(query, cols, camel_case_to_snake_case) matches Ok(m) && (m.query_type
            == QueryType::SelectUnique || m.query_type == QueryType::DeleteUnique),
    ensures
        used_names(meta_data(query, cols, camel_case_to_snake_case)->Ok_0.extracted_columns).to_set()
            == pk_names(cols).to_set(),
        match find(query, " where "@) {
            Some(start) => match where_end(query) {
                Some(end) => start <= end && count_char(query.subrange(start, end), '=')
                    == pk_names(cols).to_set().len(),
                None => false,
            },
            None => ends_with(query, "limit 1"@),
        },
{
    let crud = crud_of(query)->Some_0;
    let m = meta_data(query, cols, camel_case_to_snake_case)->Ok_0;
    assert(crud == Crud::Select || crud == Crud::Delete);
    lemma_no_ttl_outside_insert(query, crud);
}

/// The model of the outcome of reading meta data.
pub open spec fn meta_data_outcome(r: Result<QueryMetaData, QueryError>) -> Result<
    QueryMetaDataModel,
    QueryErrorModel,
> {
    match r {
        Ok(m) => Ok(m@),
        Err(e) => Err(e@),
    }
}

/// Whether a query selects a single row by its primary key, given the number
/// of distinct primary key columns.
fn is_selecting_unique(q: &str, pk_count: usize) -> (r: Result<bool, QueryError>)
    ensures
        match r {
            Ok(b) => selecting_unique(q@, pk_count as nat) == Ok::<bool, QueryErrorModel>(b),
            Err(e) => selecting_unique(q@, pk_count as nat) == Err::<bool, QueryErrorModel>(e@),
        },
{
    let chars = chars_of(q);
    match find_exec(&chars, &chars_of(" where ")) {
        Some(start) => {
            let end = match find_exec(&chars, &chars_of(" limit ")) {
                Some(l) => l,
                None => {
                    let n = chars.len();
                    if n > 0 && (chars[n - 1] as u32) < 128 {
                        n - 1
                    } else {
                        return Err(QueryError::WhereClauseOutOfRange);
                    }
                },
            };
            proof {
                lemma_find(q@, " limit "@);
            }
            if start > end {
                return Err(QueryError::WhereClauseOutOfRange);
            }
            let n = chars.len();
            assert(end <= n);
            Ok(count_char_in(&chars, start, end, '=') == pk_count)
        },
        None => Ok(ends_with_exec(&chars, &chars_of("limit 1"))),
    }
}

/// Extract the query meta data from a query, checking it against the
/// columns of its table; `camel_case_to_snake_case` is the setting that
/// says whether table names are snake cased.
pub fn extract_query_meta_data(
    query: &str,
    columns: &Vec<Columns>,
    camel_case_to_snake_case: bool,
) -> (r: Result<QueryMetaData, QueryError>)
    ensures
        meta_data_outcome(r) == meta_data(
            query@,
            table_models(columns@),
            camel_case_to_snake_case,
        ),
        !contains(query@, " using ttl"@) ==> (r matches Ok(m) ==> m.ttl is None),
{
    let crud = match try_create_query_crud(query) {
        Some(c) => c,
        None => return Err(QueryError::UnknownQueryKind),
    };
    let table_name = match try_extract_table_name(query, &crud) {
        Some(t) => t,
        None => return Err(QueryError::NoTableName),
    };
    if columns.len() == 0 {
        return Err(QueryError::TableNotFound);
    }
    let ttl_result = match extract_ttl(query) {
        Ok(t) => t,
        Err(e) => return Err(e),
    };
    let (q, ttl): (&str, Option<i32>) = match &ttl_result {
        None => (query, None),
        Some((stripped, t)) => (stripped.as_str(), Some(*t)),
    };
    checked_query_meta_data(
        q,
        ttl,
        &crud,
        table_name,
        columns,
        camel_case_to_snake_case,
    )
}

/// The meta data of a query without its time-to-live clause, of a known
/// kind and table, checked against the table's columns.
fn checked_query_meta_data(
    q: &str,
    ttl: Option<i32>,
    crud: &Crud,
    table_name: &str,
    columns: &Vec<Columns>,
    camel_case_to_snake_case: bool,
) -> (r: Result<QueryMetaData, QueryError>)
    ensures
        meta_data_outcome(r) == checked_meta_data(
            q@,
            ttl,
            *crud,
            table_name@,
            table_models(columns@),
            camel_case_to_snake_case,
        ),
{
    let ghost cols = table_models(columns@);
    let extracted_columns = match try_extract_columns(q, crud) {
        Some(v) => v,
        None => return Err(QueryError::UnreadableQuery),
    };
    let ghost used = models(extracted_columns@);
    let q_chars = chars_of(q);
    assert(used.len() == extracted_columns@.len());
    assert(cols.len() == columns@.len());
    if starts_with_exec(&q_chars, &chars_of("insert")) && extracted_columns.len() != columns.len() {
        return Err(QueryError::InsertMissingValues);
    }
    let parameterized_columns = match check_subset_and_keep_parameterized_columns(
        columns,
        &extracted_columns,
    ) {
        Ok(v) => v,
        Err(e) => return Err(e),
    };
    let mut parameterized_columns_data_types = match data_types_of(&parameterized_columns) {
        Ok(t) => t,
        Err(e) => return Err(e),
    };
    if ends_with_exec(&q_chars, &chars_of(" limit ?")) {
        // The limit is bound to a parameter too.
        parameterized_columns_data_types.push(CassandraDataType::Int);
    }
    let pk = match pk_column_names(columns) {
        Ok(v) => v,
        Err(e) => return Err(e),
    };
    let mut where_names: Vec<String> = Vec::new();
    let mut i: usize = 0;
    while i < extracted_columns.len()
        invariant
            i <= extracted_columns.len(),
            used == models(extracted_columns@),
            names(where_names@) == used_names(used).take(i as int),
        decreases extracted_columns.len() - i,
    {
        let ghost before = where_names@;
        assert(names(before).len() == before.len());
        assert(used_names(used).len() == used.len());
        assert(used[i as int] == extracted_columns@[i as int]@);
        where_names.push(extracted_columns[i].column_name.clone());
        assert(names(where_names@) =~= used_names(used).take(i + 1));
        i = i + 1;
    }
    assert(used_names(used).take(i as int) =~= used_names(used));
    let columns_in_where_all_pk = same_names_exec(&where_names, &pk);
    let pk_count = distinct_count(&pk);
    let is_selecting_unique = match is_selecting_unique(q, pk_count) {
        Ok(b) => b,
        Err(e) => return Err(e),
    };
    let is_full_pk = columns_in_where_all_pk && is_selecting_unique;
    if contains_exec(&q_chars, &chars_of("count(")) && contains_exec(&q_chars, &chars_of(" limit ")) {
        return Err(QueryError::CountAndLimit);
    }
    let query_type = match crud.try_query_type(q, is_full_pk) {
        Some(t) => t,
        None => return Err(QueryError::RefusedQueryType),
    };
    let struct_name = match try_table_name_to_struct_name(table_name, camel_case_to_snake_case) {
        Some(n) => n,
        None => return Err(QueryError::InvalidStructName),
    };
    let limited = contains_exec(&q_chars, &chars_of(" limit "));
    Ok(
        QueryMetaData {
            extracted_columns,
            parameterized_columns_data_types,
            query_type,
            struct_name,
            limited,
            ttl,
        },
    )
}

} // verus!
