//! Names and query texts for the methods that the code generator writes.
use vstd::prelude::*;

use crate::text::{str_to_uppercase, unicode_str_to_uppercase};

verus! {

pub const COLUMN_SEPARATOR: &'static str = "_";

pub const INSERT: &'static str = "insert_qv";

pub const INSERT_USING_TTL: &'static str = "insert_using_ttl_qv";

pub const DELETE_UNIQUE: &'static str = "delete_unique_qv";

pub const SELECT_UNIQUE: &'static str = "select_unique_qv";

pub const SELECT_ALL: &'static str = "select_all_q";

pub const SELECT_ALL_COUNT: &'static str = "select_all_count_q";

pub const TRUNCATE: &'static str = "truncate_q";

/// Note: updates are always executed for a single row
pub const UPDATE_OPTIONALS: &'static str = "update_qv";

pub const UPDATE_SINGLE_COLUMN: &'static str = "update_qv";

pub const UPDATE_SINGLE_COLUMN_DYNAMIC: &'static str = "update_dyn_qv";

pub const UPDATE_MULTIPLE_COLUMNS: &'static str = "update_multiple_qv";

/// The pieces joined with `sep` between each two of them (`[String]::join`).
pub open spec fn join(parts: Seq<Seq<char>>, sep: Seq<char>) -> Seq<char>
    decreases parts.len(),
{
    if parts.len() == 0 {
        Seq::empty()
    } else if parts.len() == 1 {
        parts[0]
    } else {
        join(parts.drop_last(), sep) + sep + parts.last()
    }
}

/// The condition that binds a column to a parameter.
pub open spec fn bound_to_parameter(column: Seq<char>) -> Seq<char> {
    column + " = ?"@
}

/// The conditions that bind each of the columns to a parameter, joined by
/// ` and `.
pub open spec fn parameterized_spec(columns: Seq<Seq<char>>) -> Seq<char> {
    join(columns.map_values(|c: Seq<char>| bound_to_parameter(c)), " and "@)
}

/// The models of a list of strings.
pub open spec fn texts(v: Seq<String>) -> Seq<Seq<char>> {
    v.map_values(|s: String| s@)
}

/// Joins the strings of `parts` with `sep` between each two of them.
pub fn join_strings(parts: &Vec<String>, sep: &str) -> (r: String)
    ensures
        r@ == join(texts(parts@), sep@),
{
    let mut r = String::new();
    let mut i: usize = 0;
    while i < parts.len()
        invariant
            i <= parts.len(),
            r@ == join(texts(parts@).take(i as int), sep@),
        decreases parts.len() - i,
    {
        let ghost before = r@;
        assert(texts(parts@).take(i + 1).drop_last() =~= texts(parts@).take(i as int));
        assert(texts(parts@)[i as int] == parts@[i as int]@);
        if i != 0 {
            r.append(sep);
        } else {
            assert(before =~= Seq::<char>::empty());
        }
        r.append(parts[i].as_str());
        i = i + 1;
    }
    assert(texts(parts@).take(i as int) =~= texts(parts@));
    r
}

/// The name of the method that updates a single column.
pub fn update_single_column(column_name: &str) -> (r: String)
    ensures
        r@ == "update_qv"@ + "_"@ + column_name@,
{
    let mut r = "update_qv".to_owned();
    r.append(COLUMN_SEPARATOR);
    r.append(column_name);
    r
}

/// The columns, each bound to a parameter (`a = ?`).
pub fn bound_columns(v: &Vec<String>) -> (r: Vec<String>)
    ensures
        texts(r@) == texts(v@).map_values(|c: Seq<char>| bound_to_parameter(c)),
{
    let mut bound: Vec<String> = Vec::new();
    let mut i: usize = 0;
    while i < v.len()
        invariant
            i <= v.len(),
            texts(bound@) == texts(v@).take(i as int).map_values(
                |c: Seq<char>| bound_to_parameter(c),
            ),
        decreases v.len() - i,
    {
        let mut c = v[i].as_str().to_owned();
        c.append(" = ?");
        let ghost before = bound@;
        assert(c@ == bound_to_parameter(texts(v@)[i as int]));
        bound.push(c);
        assert(texts(bound@) =~= texts(before).push(bound_to_parameter(texts(v@)[i as int])));
        assert(texts(v@).take(i + 1) =~= texts(v@).take(i as int).push(texts(v@)[i as int]));
        assert(texts(bound@) =~= texts(v@).take(i + 1).map_values(
            |c: Seq<char>| bound_to_parameter(c),
        ));
        i = i + 1;
    }
    assert(texts(v@).take(i as int) =~= texts(v@));
    bound
}

/// The conditions that bind each of the columns to a parameter, joined by
/// ` and ` (`a = ? and b = ?`).
pub fn parameterized(v: &Vec<String>) -> (r: String)
    ensures
        r@ == parameterized_spec(texts(v@)),
{
    let bound = bound_columns(v);
    join_strings(&bound, " and ")
}

/// The name of the constant that holds the query of a method: the method's
/// name with `_query` appended, in upper case.
pub fn add_query_and_uppercase(q: &str) -> (r: String)
    ensures
        r@ == unicode_str_to_uppercase(q@ + "_query"@),
{
    let mut s = q.to_owned();
    s.append("_query");
    str_to_uppercase(s.as_str())
}

/// The name of the primary key struct of a struct.
pub fn pk_struct_str(name: &str) -> (r: String)
    ensures
        r@ == name@ + "PrimaryKey"@,
{
    let mut r = name.to_owned();
    r.append("PrimaryKey");
    r
}

/// The name of the constant that holds the where clause on the primary key.
pub fn primary_key() -> (r: &'static str)
    ensures
        r@ == "WHERE_CLAUSE_PK"@,
{
    "WHERE_CLAUSE_PK"
}

/// The name of the method that gives the primary key of a row.
pub fn pk_parameter() -> (r: &'static str)
    ensures
        r@ == "primary_key"@,
{
    "primary_key"
}

/// The where clause that binds each primary key column to a parameter.
pub open spec fn where_pk_query(idents: Seq<Seq<char>>) -> Seq<char> {
    " where "@ + parameterized_spec(idents)
}

/// The where clause on the primary key columns named `idents`
/// (` where a = ? and b = ?`).
pub fn where_pk_query_from_idents(idents: &Vec<String>) -> (r: String)
    ensures
        r@ == where_pk_query(texts(idents@)),
{
    let mut r = " where ".to_owned();
    let p = parameterized(idents);
    r.append(p.as_str());
    r
}

/// The name of the enum of the columns of a struct that can be updated.
pub fn updatable_columns_enum(struct_name: &str) -> (r: String)
    ensures
        r@ == struct_name@ + "UpdatableColumns"@,
{
    let mut r = struct_name.to_owned();
    r.append("UpdatableColumns");
    r
}

} // verus!
