//! What the query macros derive from a checked query: the query text of a
//! string literal, and the Rust type of each argument that fills a
//! parameter of the query.
use vstd::prelude::*;

use crate::crud::{ColumnModel, QueryType};
use crate::query_executor::{
    checked_meta_data, data_types, illegal_column, meta_data, parameterized_table_columns,
    ttl_from_match, ttl_regex_match, QueryMetaData, QueryMetaDataModel,
};
use crate::crud::{crud_of, table_name_spec, Crud};
use crate::schema::ColumnsModel;
use crate::supported_data_types::{rust_type, CassandraDataType};
use crate::text::{
    chars_of, contains, contains_exec, find, lemma_find, lemma_rfind_below, rfind, string_from_chars,
};
use crate::text::{ends_with, find_exec, occurs_at, rfind_exec};

verus! {

/// Of the first `n` columns, the parameterized ones, each by whether it
/// takes an `in` value, in order.
pub open spec fn in_values_prefix(columns: Seq<ColumnModel>, n: int) -> Seq<bool>
    decreases n,
{
    if n <= 0 {
        Seq::empty()
    } else {
        let rest = in_values_prefix(columns, n - 1);
        if columns[n - 1].parameterized {
            rest.push(columns[n - 1].uses_in_value)
        } else {
            rest
        }
    }
}

/// The parameterized columns of a query, each by whether it takes an `in`
/// value, in order.
pub open spec fn parameter_in_values(columns: Seq<ColumnModel>) -> Seq<bool> {
    in_values_prefix(columns, columns.len() as int)
}

/// Whether `count` arguments can fill the parameters of the query: each has
/// a data type, and an argument past the parameterized columns is the limit
/// of a limited query.
pub open spec fn arguments_fit(qmd: QueryMetaDataModel, count: int) -> bool {
    let in_values = parameter_in_values(qmd.extracted_columns);
    &&& count <= qmd.parameterized_columns_data_types.len()
    &&& count <= in_values.len() + 1
    &&& count == in_values.len() + 1 ==> qmd.limited
}

/// The Rust type of the `index`th argument, and the type through which the
/// argument is checked to be assignable: a vector of the column's type for a
/// column that takes an `in` value, the column's type otherwise.
pub open spec fn argument_type_spec(qmd: QueryMetaDataModel, index: int) -> (Seq<char>, Seq<char>) {
    let ty = rust_type(qmd.parameterized_columns_data_types[index]);
    let in_values = parameter_in_values(qmd.extracted_columns);
    if index < in_values.len() && in_values[index] {
        ("std::vec::Vec<"@ + ty + ">"@, "std::vec::Vec::<"@ + ty + ">"@)
    } else {
        (ty, ty)
    }
}

/// The type of an argument of a query, and the type that checks it.
pub struct ArgumentType {
    pub ty: String,
    pub ty_comparison: String,
}

fn in_values(qmd: &QueryMetaData) -> (r: Vec<bool>)
    ensures
        r@ == parameter_in_values(qmd@.extracted_columns),
{
    let ghost columns = qmd@.extracted_columns;
    let mut r: Vec<bool> = Vec::new();
    let mut i: usize = 0;
    while i < qmd.extracted_columns.len()
        invariant
            i <= qmd.extracted_columns.len(),
            columns == qmd@.extracted_columns,
            columns.len() == qmd.extracted_columns@.len(),
            r@ == in_values_prefix(columns, i as int),
        decreases qmd.extracted_columns.len() - i,
    {
        let c = &qmd.extracted_columns[i];
        assert(columns[i as int] == c@);
        if c.parameterized {
            r.push(c.uses_in_value);
        }
        i = i + 1;
    }
    r
}

/// Whether `count` arguments can fill the parameters of the query.
pub fn arguments_fit_exec(qmd: &QueryMetaData, count: usize) -> (b: bool)
    ensures
        b == arguments_fit(qmd@, count as int),
{
    let in_values = in_values(qmd);
    count <= qmd.parameterized_columns_data_types.len() && (count <= in_values.len() || (count
        > 0 && count - 1 == in_values.len() && qmd.limited))
}

/// The types of the `count` arguments that fill the parameters of the query,
/// in order.
pub fn argument_types(qmd: &QueryMetaData, count: usize) -> (r: Vec<ArgumentType>)
    requires
        arguments_fit(qmd@, count as int),
    ensures
        r.len() == count,
        forall|i: int|
            0 <= i < count ==> (#[trigger] r@[i].ty@, r@[i].ty_comparison@) == argument_type_spec(
                qmd@,
                i,
            ),
{
    let flags = in_values(qmd);
    let mut r: Vec<ArgumentType> = Vec::new();
    let mut i: usize = 0;
    while i < count
        invariant
            i <= count,
            arguments_fit(qmd@, count as int),
            flags@ == parameter_in_values(qmd@.extracted_columns),
            r.len() == i,
            forall|k: int|
                0 <= k < i ==> (#[trigger] r@[k].ty@, r@[k].ty_comparison@) == argument_type_spec(
                    qmd@,
                    k,
                ),
        decreases count - i,
    {
        let ty = qmd.parameterized_columns_data_types[i].to_ty();
        let arg = if i < flags.len() && flags[i] {
            let mut vec_ty = "std::vec::Vec<".to_owned();
            vec_ty.append(ty);
            vec_ty.append(">");
            let mut check_ty = "std::vec::Vec::<".to_owned();
            check_ty.append(ty);
            check_ty.append(">");
            ArgumentType { ty: vec_ty, ty_comparison: check_ty }
        } else {
            ArgumentType { ty: ty.to_owned(), ty_comparison: ty.to_owned() }
        };
        r.push(arg);
        i = i + 1;
    }
    r
}

/// The query that a string literal holds, read from the literal's debug
/// text: the text between its first and its last double quote.
pub fn query_between_quotes(debug_text: &str) -> (r: String)
    requires
        find(debug_text@, seq!['"']) matches Some(first) && rfind(debug_text@, seq!['"']) matches Some(
            last,
        ) && first < last,
    ensures
        find(debug_text@, seq!['"']) matches Some(first) && rfind(debug_text@, seq!['"']) matches Some(
            last,
        ) && r@ == debug_text@.subrange(first + 1, last),
{
    let chars = chars_of(debug_text);
    let mut quote: Vec<char> = Vec::new();
    quote.push('"');
    assert(quote@ =~= seq!['"']);
    let first = find_exec(&chars, &quote);
    let last = rfind_exec(&chars, &quote);
    proof {
        lemma_find(chars@, quote@);
        lemma_rfind_below(chars@, quote@, chars@.len() - quote@.len());
    }
    match (first, last) {
        (Some(f), Some(l)) => string_from_chars(&chars, f + 1, l),
        _ => String::new(),
    }
}

/// The number by which the example macro reports the type of a query.
pub fn query_type_code(t: QueryType) -> (r: i32)
    ensures
        r == match t {
            QueryType::SelectMultiple => 0i32,
            QueryType::SelectUnique => 1,
            QueryType::SelectUniqueByLimit => 2,
            QueryType::SelectCount => 3,
            QueryType::UpdateUnique => 4,
            QueryType::DeleteMultiple => 5,
            QueryType::DeleteUnique => 6,
            QueryType::InsertUnique => 7,
            QueryType::Truncate => 8,
        },
{
    match t {
        QueryType::SelectMultiple => 0,
        QueryType::SelectUnique => 1,
        QueryType::SelectUniqueByLimit => 2,
        QueryType::SelectCount => 3,
        QueryType::UpdateUnique => 4,
        QueryType::DeleteMultiple => 5,
        QueryType::DeleteUnique => 6,
        QueryType::InsertUnique => 7,
        QueryType::Truncate => 8,
    }
}

/// Whether the query takes one parameter more than its columns: a limit or
/// a time to live that is bound to a parameter.
pub open spec fn takes_extra_parameter(query: Seq<char>) -> bool {
    contains(query, " limit ?"@) || contains(query, " using ttl ?"@)
}

/// The values with which a query is tried out, each by its data type and by
/// whether it is a list for an `in` value: one per parameterized column, in
/// order, and an `int` for a limit or time to live that is bound to a
/// parameter.
pub open spec fn test_values_spec(qmd: QueryMetaDataModel, query: Seq<char>) -> Seq<
    (CassandraDataType, bool),
> {
    let in_values = parameter_in_values(qmd.extracted_columns);
    Seq::new(in_values.len(), |i: int| (qmd.parameterized_columns_data_types[i], in_values[i]))
        + if takes_extra_parameter(query) {
        seq![(CassandraDataType::Int, false)]
    } else {
        Seq::empty()
    }
}

/// The values with which a query is tried out against the database.
pub fn test_values(qmd: &QueryMetaData, query: &str) -> (r: Vec<(CassandraDataType, bool)>)
    requires
        parameter_in_values(qmd@.extracted_columns).len()
            <= qmd@.parameterized_columns_data_types.len(),
    ensures
        r@ == test_values_spec(qmd@, query@),
{
    let flags = in_values(qmd);
    let mut r: Vec<(CassandraDataType, bool)> = Vec::new();
    let mut i: usize = 0;
    while i < flags.len()
        invariant
            i <= flags.len() <= qmd.parameterized_columns_data_types.len(),
            flags@ == parameter_in_values(qmd@.extracted_columns),
            r@ =~= Seq::new(
                i as nat,
                |k: int| (qmd@.parameterized_columns_data_types[k], flags@[k]),
            ),
        decreases flags.len() - i,
    {
        r.push((qmd.parameterized_columns_data_types[i], flags[i]));
        i = i + 1;
    }
    let chars = chars_of(query);
    let limit = chars_of(" limit ?");
    let ttl = chars_of(" using ttl ?");
    if contains_exec(&chars, &limit) || contains_exec(&chars, &ttl) {
        r.push((CassandraDataType::Int, false));
    }
    assert(r@ =~= test_values_spec(qmd@, query@));
    r
}

/// The parameterized columns among the first `n` do not depend on the
/// columns after them.
proof fn lemma_in_values_prefix_drop_last(columns: Seq<ColumnModel>, n: int)
    requires
        0 <= n < columns.len(),
    ensures
        in_values_prefix(columns, n) == in_values_prefix(columns.drop_last(), n),
    decreases n,
{
    if n > 0 {
        lemma_in_values_prefix_drop_last(columns, n - 1);
    }
}

/// Where every column that the query uses is a column of the table, there
/// is one table column for each parameterized column.
proof fn lemma_parameterized_count(used: Seq<ColumnModel>, cols: Seq<ColumnsModel>)
    requires
        illegal_column(used, cols) is None,
    ensures
        parameterized_table_columns(used, cols).len() == parameter_in_values(used).len(),
    decreases used.len(),
{
    if used.len() > 0 {
        lemma_parameterized_count(used.drop_last(), cols);
        lemma_in_values_prefix_drop_last(used, used.len() - 1);
    }
}

/// Data types are read one for each column.
proof fn lemma_data_types_len(cols: Seq<ColumnsModel>)
    requires
        data_types(cols) is Ok,
    ensures
        data_types(cols) matches Ok(t) && t.len() == cols.len(),
    decreases cols.len(),
{
    if cols.len() > 0 {
        lemma_data_types_len(cols.drop_last());
    }
}

proof fn lemma_checked_arguments_fit(
    q: Seq<char>,
    ttl: Option<i32>,
    crud: Crud,
    table: Seq<char>,
    cols: Seq<ColumnsModel>,
    camel_case_to_snake_case: bool,
)
    requires
        checked_meta_data(q, ttl, crud, table, cols, camel_case_to_snake_case) is Ok,
    ensures
        checked_meta_data(q, ttl, crud, table, cols, camel_case_to_snake_case) matches Ok(qmd)
            && arguments_fit(qmd, qmd.parameterized_columns_data_types.len() as int),
{
    let qmd = checked_meta_data(q, ttl, crud, table, cols, camel_case_to_snake_case)->Ok_0;
    let used = qmd.extracted_columns;
    lemma_parameterized_count(used, cols);
    lemma_data_types_len(parameterized_table_columns(used, cols));
    if ends_with(q, " limit ?"@) {
        reveal_strlit(" limit ?");
        reveal_strlit(" limit ");
        let k = q.len() - 8;
        assert(q.subrange(k, k + 7) =~= " limit "@);
        assert(occurs_at(q, " limit "@, k));
        lemma_find(q, " limit "@);
        assert(contains(q, " limit "@));
    }
}

/// Every query that the query reader accepts can be given all of its arguments
/// by the query macros: with as many arguments as the query has
/// parameters, each argument has a type, and an argument past the
/// parameterized columns is the limit of a limited query.
pub proof fn lemma_accepted_query_arguments_fit(
    query: Seq<char>,
    cols: Seq<ColumnsModel>,
    camel_case_to_snake_case: bool,
)
    requires
        meta_data(query, cols, camel_case_to_snake_case) is Ok,
    ensures
        meta_data(query, cols, camel_case_to_snake_case) matches Ok(qmd) && arguments_fit(
            qmd,
            qmd.parameterized_columns_data_types.len() as int,
        ),
{
    let crud = crud_of(query)->Some_0;
    let table = table_name_spec(query, crud)->Some_0;
    match ttl_from_match(query, ttl_regex_match(query)) {
        Ok(None) => lemma_checked_arguments_fit(
            query,
            None,
            crud,
            table,
            cols,
            camel_case_to_snake_case,
        ),
        Ok(Some((q, ttl))) => lemma_checked_arguments_fit(
            q,
            Some(ttl),
            crud,
            table,
            cols,
            camel_case_to_snake_case,
        ),
        Err(_) => {},
    }
}

/// A query is tried out with one value for each of its parameters: one per
/// parameterized column, in order, with the column's data type and as a
/// list where the column takes an `in` value, and then one `int` where the
/// query binds its limit (` limit ?`) or its time to live (` using ttl ?`)
/// to a parameter.
pub proof fn lemma_test_values(qmd: QueryMetaDataModel, query: Seq<char>)
    ensures
        test_values_spec(qmd, query).len() == parameter_in_values(qmd.extracted_columns).len() + (
        if contains(query, " limit ?"@) || contains(query, " using ttl ?"@) {
            1int
        } else {
            0int
        }),
        forall|i: int|
            0 <= i < parameter_in_values(qmd.extracted_columns).len() ==> #[trigger] test_values_spec(
                qmd,
                query,
            )[i] == (qmd.parameterized_columns_data_types[i], parameter_in_values(
                qmd.extracted_columns,
            )[i]),
        contains(query, " limit ?"@) || contains(query, " using ttl ?"@) ==> test_values_spec(
            qmd,
            query,
        ).last() == (CassandraDataType::Int, false),
{
}

} // verus!
