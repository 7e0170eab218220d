//! The queries, and the names of the constants that hold them, of the
//! methods that the mirror derive writes for a table.
use vstd::prelude::*;

use crate::method_writer::{Crud, Inf, PlannedMethod, Update};
use crate::query_writer::{
    bound_columns, bound_to_parameter, join, join_strings, texts, where_pk_query,
    where_pk_query_from_idents,
};
use crate::text::{
    char_seqs, chars_of, replace_first, split, split_exec, replace_first_str, str_to_uppercase, string_from_chars,
    unicode_str_to_uppercase,
};

verus! {

/// `count` question marks, joined by `, `.
pub open spec fn placeholders(count: nat) -> Seq<char> {
    join(Seq::new(count, |i: int| "?"@), ", "@)
}

/// `insert into t (a, b) values (?, ?)`.
pub open spec fn insert_query_spec(table: Seq<char>, columns: Seq<Seq<char>>) -> Seq<char> {
    "insert into "@ + table + " ("@ + join(columns, ", "@) + ") values ("@ + placeholders(
        columns.len(),
    ) + ")"@
}

/// The columns, each bound to a parameter, joined by `, ` (`a = ?, b = ?`).
pub open spec fn assignments(columns: Seq<Seq<char>>) -> Seq<char> {
    join(columns.map_values(|c: Seq<char>| bound_to_parameter(c)), ", "@)
}

/// `update t set a = ?, b = ? where k = ?`.
pub open spec fn update_query_spec(
    table: Seq<char>,
    columns: Seq<Seq<char>>,
    pk: Seq<Seq<char>>,
) -> Seq<char> {
    "update "@ + table + " set "@ + assignments(columns) + where_pk_query(pk)
}

/// The columns among the first `n` whose flag in `present` is set, in order.
pub open spec fn chosen_prefix(columns: Seq<Seq<char>>, present: Seq<bool>, n: int) -> Seq<
    Seq<char>,
>
    decreases n,
{
    if n <= 0 {
        Seq::empty()
    } else {
        let rest = chosen_prefix(columns, present, n - 1);
        if present[n - 1] {
            rest.push(columns[n - 1])
        } else {
            rest
        }
    }
}

/// The columns whose flag in `present` is set, in order.
pub open spec fn chosen(columns: Seq<Seq<char>>, present: Seq<bool>) -> Seq<Seq<char>> {
    chosen_prefix(columns, present, columns.len() as int)
}

/// Whether the last `n` characters of `s` are ASCII, so that cutting `n`
/// bytes from the end of its text cuts exactly these `n` characters.
pub open spec fn ascii_tail(s: Seq<char>, n: int) -> bool {
    &&& 0 <= n <= s.len()
    &&& forall|i: int| s.len() - n <= i < s.len() ==> (s[i] as u32) < 128
}

/// The query that inserts one row with every column bound to a parameter:
/// `insert into t (a, b) values (?, ?)`.
pub fn insert_query(table: &str, columns: &Vec<String>) -> (r: String)
    ensures
        r@ == insert_query_spec(table@, texts(columns@)),
{
    let mut marks: Vec<String> = Vec::new();
    let mut i: usize = 0;
    while i < columns.len()
        invariant
            i <= columns.len(),
            texts(marks@) =~= Seq::new(i as nat, |k: int| "?"@),
        decreases columns.len() - i,
    {
        let ghost before = marks@;
        let mark = "?".to_owned();
        marks.push(mark);
        assert(texts(marks@) =~= texts(before).push("?"@));
        i = i + 1;
    }
    let names = join_strings(columns, ", ");
    let qs = join_strings(&marks, ", ");
    let mut r = "insert into ".to_owned();
    r.append(table);
    r.append(" (");
    r.append(names.as_str());
    r.append(") values (");
    r.append(qs.as_str());
    r.append(")");
    r
}

/// The insert query followed by a time to live that is bound to a parameter:
/// `insert into t (a, b) values (?, ?) using ttl ?`.
pub fn insert_query_using_ttl(table: &str, columns: &Vec<String>) -> (r: String)
    ensures
        r@ == insert_query_spec(table@, texts(columns@)) + " using ttl ?"@,
{
    let mut r = insert_query(table, columns);
    r.append(" using ttl ?");
    r
}

/// The query that selects one row by its primary key:
/// `select * from t where a = ? and b = ?`.
pub fn select_unique_query(table: &str, pk: &Vec<String>) -> (r: String)
    ensures
        r@ == "select * from "@ + table@ + where_pk_query(texts(pk@)),
{
    let mut r = "select * from ".to_owned();
    r.append(table);
    let w = where_pk_query_from_idents(pk);
    r.append(w.as_str());
    r
}

/// The query that deletes one row by its primary key:
/// `delete from t where a = ? and b = ?`.
pub fn delete_unique_query(table: &str, pk: &Vec<String>) -> (r: String)
    ensures
        r@ == "delete from "@ + table@ + where_pk_query(texts(pk@)),
{
    let mut r = "delete from ".to_owned();
    r.append(table);
    let w = where_pk_query_from_idents(pk);
    r.append(w.as_str());
    r
}

/// The query that selects `selection` over every row: `select * from t`,
/// or `select count(*) from t`.
pub fn select_all_query(table: &str, selection: &str) -> (r: String)
    ensures
        r@ == "select "@ + selection@ + " from "@ + table@,
{
    let mut r = "select ".to_owned();
    r.append(selection);
    r.append(" from ");
    r.append(table);
    r
}

/// The query that removes every row of a table: `truncate t`.
pub fn truncate_query(table: &str) -> (r: String)
    ensures
        r@ == "truncate "@ + table@,
{
    let mut r = "truncate ".to_owned();
    r.append(table);
    r
}

/// The query that updates one column of one row:
/// `update t set c = ? where a = ? and b = ?`.
pub fn update_column_query(table: &str, column: &str, pk: &Vec<String>) -> (r: String)
    ensures
        r@ == "update "@ + table@ + " set "@ + column@ + " = ?"@ + where_pk_query(texts(pk@)),
{
    let mut r = "update ".to_owned();
    r.append(table);
    r.append(" set ");
    r.append(column);
    r.append(" = ?");
    let w = where_pk_query_from_idents(pk);
    r.append(w.as_str());
    r
}

/// The query that updates the given columns of one row, in the given order
/// (a column may come more than once): `update t set a = ?, b = ? where k = ?`.
pub fn update_multiple_query(table: &str, columns: &Vec<String>, pk: &Vec<String>) -> (r: String)
    requires
        columns.len() > 0,
    ensures
        r@ == update_query_spec(table@, texts(columns@), texts(pk@)),
{
    let bound = bound_columns(columns);
    let set = join_strings(&bound, ", ");
    let mut r = "update ".to_owned();
    r.append(table);
    r.append(" set ");
    r.append(set.as_str());
    let w = where_pk_query_from_idents(pk);
    r.append(w.as_str());
    r
}

/// The query that updates the columns whose value is given (`present`), or
/// `None` where no value is given.
pub fn update_optionals_query(
    table: &str,
    columns: &Vec<String>,
    present: &Vec<bool>,
    pk: &Vec<String>,
) -> (r: Option<String>)
    requires
        columns.len() == present.len(),
    ensures
        chosen(texts(columns@), present@).len() == 0 ==> r is None,
        chosen(texts(columns@), present@).len() > 0 ==> (r matches Some(q) && q@
            == update_query_spec(table@, chosen(texts(columns@), present@), texts(pk@))),
{
    let mut to_update: Vec<String> = Vec::new();
    let mut i: usize = 0;
    while i < columns.len()
        invariant
            i <= columns.len() == present.len(),
            texts(to_update@) == chosen_prefix(texts(columns@), present@, i as int),
        decreases columns.len() - i,
    {
        if present[i] {
            let ghost before = to_update@;
            to_update.push(columns[i].as_str().to_owned());
            assert(texts(to_update@) =~= texts(before).push(texts(columns@)[i as int]));
        }
        i = i + 1;
    }
    if to_update.len() == 0 {
        return None;
    }
    Some(update_multiple_query(table, &to_update, pk))
}

/// The name of a query constant: `ident` without its last `prefix_len`
/// bytes, followed by `query`, in upper case (`insert_qv` gives
/// `INSERT_QUERY` where `prefix_len` is 2).
pub fn replace_by_query(ident: &str, prefix_len: usize) -> (r: String)
    requires
        ascii_tail(ident@, prefix_len as int),
    ensures
        r@ == unicode_str_to_uppercase(
            ident@.subrange(0, ident@.len() - prefix_len) + "query"@,
        ),
{
    let chars = chars_of(ident);
    let mut s = string_from_chars(&chars, 0, chars.len() - prefix_len);
    s.append("query");
    str_to_uppercase(s.as_str())
}

/// The name of the query constant of a method whose name ends in `qv`.
pub fn replace_qv_by_query(ident: &str) -> (r: String)
    requires
        ascii_tail(ident@, 2),
    ensures
        r@ == unicode_str_to_uppercase(ident@.subrange(0, ident@.len() - 2) + "query"@),
{
    replace_by_query(ident, 2)
}

/// The name of the query constant of a select or delete method: the
/// method's name without its first `_qv`, followed by `_query`, in upper
/// case (`select_unique_qv` gives `SELECT_UNIQUE_QUERY`).
pub fn unique_query_const_name(fn_name: &str) -> (r: String)
    ensures
        r@ == unicode_str_to_uppercase(replace_first(fn_name@, "_qv"@, ""@) + "_query"@),
{
    let mut s = replace_first_str(fn_name, "_qv", "");
    s.append("_query");
    str_to_uppercase(s.as_str())
}

/// The name of the query constant of a method that updates one column: the
/// method's name with its first `_qv_` replaced by `_`, followed by
/// `_query`, in upper case (`update_qv_name` gives `UPDATE_NAME_QUERY`).
pub fn update_column_const_name(fn_name: &str) -> (r: String)
    ensures
        r@ == unicode_str_to_uppercase(replace_first(fn_name@, "_qv_"@, "_"@) + "_query"@),
{
    let mut s = replace_first_str(fn_name, "_qv_", "_");
    s.append("_query");
    str_to_uppercase(s.as_str())
}

/// A constant that the mirror derive writes beside a method: its name and
/// the query it holds.
pub struct MirrorConstant {
    pub name: String,
    pub query: String,
}

/// The name and the query of the constant that the mirror derive writes
/// beside the method named `db_name` of the kind `crud`, for the table
/// `table` with the given columns; `None` for the update methods whose query
/// is built when they are called.
pub open spec fn mirror_constant_spec(
    table: Seq<char>,
    fields: Seq<Seq<char>>,
    pk: Seq<Seq<char>>,
    non_pk: Seq<Seq<char>>,
    db_name: Seq<char>,
    crud: Crud,
) -> Option<(Seq<char>, Seq<char>)> {
    match crud {
        Crud::InsertUnique(using_ttl) => if using_ttl {
            Some(("INSERT_QUERY_USING_TTL"@, insert_query_spec(table, fields) + " using ttl ?"@))
        } else {
            Some(
                (
                    unicode_str_to_uppercase(db_name.subrange(0, db_name.len() - 2) + "query"@),
                    insert_query_spec(table, fields),
                ),
            )
        },
        Crud::SelectUnique => Some(
            (
                unicode_str_to_uppercase(replace_first(db_name, "_qv"@, ""@) + "_query"@),
                "select * from "@ + table + where_pk_query(pk),
            ),
        ),
        Crud::DeleteUnique => Some(
            (
                unicode_str_to_uppercase(replace_first(db_name, "_qv"@, ""@) + "_query"@),
                "delete from "@ + table + where_pk_query(pk),
            ),
        ),
        Crud::SelectAll => Some(("SELECT_ALL_QUERY"@, "select "@ + "*"@ + " from "@ + table)),
        Crud::SelectAllCount => Some(
            ("SELECT_ALL_COUNT_QUERY"@, "select "@ + "count(*)"@ + " from "@ + table),
        ),
        Crud::Truncate => Some(("TRUNCATE_QUERY"@, "truncate "@ + table)),
        Crud::UpdateUnique(update) => match update {
            Update::SingleColumn(i) => Some(
                (
                    unicode_str_to_uppercase(replace_first(db_name, "_qv_"@, "_"@) + "_query"@),
                    "update "@ + table + " set "@ + non_pk[i as int] + " = ?"@ + where_pk_query(pk),
                ),
            ),
            _ => None,
        },
    }
}

/// The constant that the mirror derive writes beside a method of the
/// table, where it writes one.
pub fn mirror_constant(inf: &Inf, method: &PlannedMethod) -> (r: Option<MirrorConstant>)
    requires
        method.crud == Crud::InsertUnique(false) ==> ascii_tail(method.db_mirror_fn_name@, 2),
        method.crud matches Crud::UpdateUnique(Update::SingleColumn(i)) ==> i
            < inf.non_pk_fields.len(),
    ensures
        match mirror_constant_spec(
            inf.table_name@,
            texts(inf.fields@),
            texts(inf.pk_fields@),
            texts(inf.non_pk_fields@),
            method.db_mirror_fn_name@,
            method.crud,
        ) {
            None => r is None,
            Some(c) => r matches Some(k) && k.name@ == c.0 && k.query@ == c.1,
        },
{
    let table = inf.table_name.as_str();
    let db_name = method.db_mirror_fn_name.as_str();
    match method.crud {
        Crud::InsertUnique(using_ttl) => {
            if using_ttl {
                Some(
                    MirrorConstant {
                        name: "INSERT_QUERY_USING_TTL".to_owned(),
                        query: insert_query_using_ttl(table, &inf.fields),
                    },
                )
            } else {
                Some(
                    MirrorConstant {
                        name: replace_qv_by_query(db_name),
                        query: insert_query(table, &inf.fields),
                    },
                )
            }
        },
        Crud::SelectUnique => Some(
            MirrorConstant {
                name: unique_query_const_name(db_name),
                query: select_unique_query(table, &inf.pk_fields),
            },
        ),
        Crud::DeleteUnique => Some(
            MirrorConstant {
                name: unique_query_const_name(db_name),
                query: delete_unique_query(table, &inf.pk_fields),
            },
        ),
        Crud::SelectAll => Some(
            MirrorConstant {
                name: "SELECT_ALL_QUERY".to_owned(),
                query: select_all_query(table, "*"),
            },
        ),
        Crud::SelectAllCount => Some(
            MirrorConstant {
                name: "SELECT_ALL_COUNT_QUERY".to_owned(),
                query: select_all_query(table, "count(*)"),
            },
        ),
        Crud::Truncate => Some(
            MirrorConstant { name: "TRUNCATE_QUERY".to_owned(), query: truncate_query(table) },
        ),
        Crud::UpdateUnique(update) => match update {
            Update::SingleColumn(i) => Some(
                MirrorConstant {
                    name: update_column_const_name(db_name),
                    query: update_column_query(
                        table,
                        inf.non_pk_fields[i].as_str(),
                        &inf.pk_fields,
                    ),
                },
            ),
            _ => None,
        },
    }
}

/// The derives that a setting adds to every primary key struct: the
/// setting's comma separated names, none where the setting is empty.
pub fn custom_derives(setting: &str) -> (r: Vec<String>)
    ensures
        setting@.len() == 0 ==> r.len() == 0,
        setting@.len() > 0 ==> texts(r@) == split(setting@, seq![',']),
{
    let mut r: Vec<String> = Vec::new();
    let chars = chars_of(setting);
    if chars.len() == 0 {
        return r;
    }
    let mut comma: Vec<char> = Vec::new();
    comma.push(',');
    assert(comma@ =~= seq![',']);
    let pieces = split_exec(&chars, &comma);
    let mut i: usize = 0;
    while i < pieces.len()
        invariant
            i <= pieces.len(),
            char_seqs(pieces@) == split(setting@, seq![',']),
            texts(r@) =~= char_seqs(pieces@).take(i as int),
        decreases pieces.len() - i,
    {
        let ghost before = r@;
        let piece = string_from_chars(&pieces[i], 0, pieces[i].len());
        assert(pieces@[i as int]@.subrange(0, pieces@[i as int]@.len() as int) =~= pieces@[i as int]@);
        r.push(piece);
        assert(texts(r@) =~= texts(before).push(char_seqs(pieces@)[i as int]));
        i = i + 1;
    }
    r
}

/// Updating one column through the query that updates several columns gives
/// the query of the method that updates that column alone; so the update
/// that takes a value of the enum of updatable columns and the method of
/// that column agree.
pub proof fn lemma_single_column_update_agrees(
    table: Seq<char>,
    column: Seq<char>,
    pk: Seq<Seq<char>>,
)
    ensures
        update_query_spec(table, seq![column], pk) == "update "@ + table + " set "@ + column
            + " = ?"@ + where_pk_query(pk),
{
    let bound = seq![column].map_values(|c: Seq<char>| bound_to_parameter(c));
    assert(bound =~= seq![column + " = ?"@]);
    assert(assignments(seq![column]) == column + " = ?"@);
}

proof fn lemma_all_chosen(columns: Seq<Seq<char>>, present: Seq<bool>, n: int)
    requires
        0 <= n <= columns.len() <= present.len(),
        forall|i: int| 0 <= i < present.len() ==> present[i],
    ensures
        chosen_prefix(columns, present, n) == columns.take(n),
    decreases n,
{
    if n > 0 {
        lemma_all_chosen(columns, present, n - 1);
        assert(columns.take(n) =~= columns.take(n - 1).push(columns[n - 1]));
    }
}

/// Giving a value for every column updates every column, in order: the
/// update of the optional values then sets all of them at once.
pub proof fn lemma_all_optionals_given(columns: Seq<Seq<char>>, present: Seq<bool>)
    requires
        columns.len() == present.len(),
        forall|i: int| 0 <= i < present.len() ==> present[i],
    ensures
        chosen(columns, present) == columns,
{
    lemma_all_chosen(columns, present, columns.len() as int);
    assert(columns.take(columns.len() as int) =~= columns);
}

/// How many of the first `n` flags are set.
pub open spec fn flags_set(present: Seq<bool>, n: int) -> nat
    decreases n,
{
    if n <= 0 {
        0
    } else {
        flags_set(present, n - 1) + if present[n - 1] {
            1nat
        } else {
            0nat
        }
    }
}

proof fn lemma_chosen_prefix(columns: Seq<Seq<char>>, present: Seq<bool>, n: int)
    requires
        0 <= n <= columns.len() == present.len(),
    ensures
        chosen_prefix(columns, present, n).len() == flags_set(present, n),
        forall|i: int|
            0 <= i < n && present[i] ==> chosen_prefix(columns, present, n).contains(
                #[trigger] columns[i],
            ),
        forall|k: int|
            0 <= k < chosen_prefix(columns, present, n).len() ==> exists|i: int|
                0 <= i < n && present[i] && #[trigger] chosen_prefix(columns, present, n)[k]
                    == columns[i],
        chosen_prefix(columns, present, n).len() == 0 <==> forall|i: int|
            0 <= i < n ==> !present[i],
    decreases n,
{
    if n > 0 {
        lemma_chosen_prefix(columns, present, n - 1);
        let rest = chosen_prefix(columns, present, n - 1);
        let all = chosen_prefix(columns, present, n);
        if present[n - 1] {
            assert(all == rest.push(columns[n - 1]));
            assert forall|i: int| 0 <= i < n && present[i] implies all.contains(
                #[trigger] columns[i],
            ) by {
                if i < n - 1 {
                    let k = choose|k: int| 0 <= k < rest.len() && rest[k] == columns[i];
                    assert(all[k] == columns[i]);
                } else {
                    assert(all[rest.len() as int] == columns[i]);
                }
            }
            assert forall|k: int| 0 <= k < all.len() implies exists|i: int|
                0 <= i < n && present[i] && #[trigger] all[k] == columns[i] by {
                if k < rest.len() {
                    assert(all[k] == rest[k]);
                } else {
                    assert(all[k] == columns[n - 1]);
                }
            }
        } else {
            assert(all == rest);
            assert forall|i: int| 0 <= i < n && present[i] implies all.contains(
                #[trigger] columns[i],
            ) by {
                assert(i < n - 1);
            }
        }
    }
}

/// The update of the optional values sets exactly the columns whose value is
/// given: one column per set flag, every column whose flag is set (whatever
/// the flags before it), and no column whose flag is not; it sets none, and
/// so no query is written, exactly when no value is given.
pub proof fn lemma_chosen_columns(columns: Seq<Seq<char>>, present: Seq<bool>)
    requires
        columns.len() == present.len(),
    ensures
        chosen(columns, present).len() == flags_set(present, present.len() as int),
        forall|i: int|
            0 <= i < columns.len() && present[i] ==> chosen(columns, present).contains(
                #[trigger] columns[i],
            ),
        forall|k: int|
            0 <= k < chosen(columns, present).len() ==> exists|i: int|
                0 <= i < columns.len() && present[i] && #[trigger] chosen(columns, present)[k]
                    == columns[i],
        chosen(columns, present).len() == 0 <==> forall|i: int|
            0 <= i < present.len() ==> !present[i],
{
    lemma_chosen_prefix(columns, present, columns.len() as int);
}

proof fn lemma_chosen_prefix_extend(
    columns: Seq<Seq<char>>,
    present: Seq<bool>,
    c: Seq<char>,
    b: bool,
    n: int,
)
    requires
        0 <= n <= columns.len() == present.len(),
    ensures
        chosen_prefix(columns.push(c), present.push(b), n) == chosen_prefix(columns, present, n),
    decreases n,
{
    if n > 0 {
        lemma_chosen_prefix_extend(columns, present, c, b, n - 1);
        assert(columns.push(c)[n - 1] == columns[n - 1]);
        assert(present.push(b)[n - 1] == present[n - 1]);
    }
}

/// Adding a column with its flag after the others adds it at the end of the
/// updated columns where its flag is set and leaves them as they were
/// otherwise: the updated columns keep the order of the columns.
pub proof fn lemma_chosen_push(columns: Seq<Seq<char>>, present: Seq<bool>, c: Seq<char>, b: bool)
    requires
        columns.len() == present.len(),
    ensures
        chosen(columns.push(c), present.push(b)) == if b {
            chosen(columns, present).push(c)
        } else {
            chosen(columns, present)
        },
{
    lemma_chosen_prefix_extend(columns, present, c, b, columns.len() as int);
    assert(columns.push(c)[columns.len() as int] == c);
    assert(present.push(b)[columns.len() as int] == b);
}

} // verus!
