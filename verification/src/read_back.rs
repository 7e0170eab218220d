//! The where clause that the code generator writes on the primary key is
//! read back by the query reader as exactly the primary key columns.
use vstd::prelude::*;

use crate::crud::insert::{insert_columns, inserted_column, parenthesized};
use crate::crud::{columns_after_where_spec, lowest_operator, where_columns, where_operators, ColumnModel};
use crate::query_writer::{bound_to_parameter, join, parameterized_spec, where_pk_query};
use crate::mirror::{insert_query_spec, placeholders};
use crate::text::{find, has_char, lemma_find, occurs_at, split};

verus! {

/// A column name without spaces, as the names of Rust fields are.
pub open spec fn plain_name(c: Seq<char>) -> bool {
    forall|i: int| 0 <= i < c.len() ==> c[i] != ' '
}

/// The model of a column that the where clause binds to a parameter with `=`.
pub open spec fn bound_column(c: Seq<char>) -> ColumnModel {
    ColumnModel {
        column_name: c,
        parameterized: true,
        uses_in_value: false,
        is_part_of_where_clause: true,
    }
}

/// Joining a list of two or more pieces puts the first piece, the
/// separator, then the rest joined.
proof fn lemma_join_front(parts: Seq<Seq<char>>, sep: Seq<char>)
    requires
        parts.len() >= 2,
    ensures
        join(parts, sep) == parts[0] + sep + join(parts.skip(1), sep),
    decreases parts.len(),
{
    if parts.len() == 2 {
        assert(parts.drop_last().len() == 1);
        assert(parts.skip(1).len() == 1);
        assert(join(parts.skip(1), sep) == parts[1]);
        assert(join(parts.drop_last(), sep) == parts[0]);
    } else {
        lemma_join_front(parts.drop_last(), sep);
        assert(parts.drop_last().skip(1) =~= parts.skip(1).drop_last());
        assert(parts.skip(1).last() == parts.last());
        assert(join(parts.skip(1), sep) == join(parts.skip(1).drop_last(), sep) + sep
            + parts.skip(1).last());
    }
}

/// A pattern that starts with a space occurs in `c + rest` only at or
/// after the end of `c`, where `c` has no space.
proof fn lemma_space_pattern_after(c: Seq<char>, rest: Seq<char>, p: Seq<char>)
    requires
        plain_name(c),
        p.len() > 0,
        p[0] == ' ',
    ensures
        find(c + rest, p) matches Some(k) ==> k >= c.len(),
{
    lemma_find(c + rest, p);
    if let Some(k) = find(c + rest, p) {
        assert(occurs_at(c + rest, p, k));
        assert((c + rest).subrange(k, k + p.len())[0] == p[0]);
        if k < c.len() {
            assert((c + rest)[k] == c[k]);
        }
    }
}

/// Where ` = ` first occurs at `n` and no other operator occurs before it,
/// the operator that occurs first is ` = ` at `n`.
proof fn lemma_lowest_is_equals(s: Seq<char>, n: int, m: int)
    requires
        1 <= m <= 6,
        find(s, where_operators()[0]) == Some(n),
        forall|k: int|
            1 <= k < 6 ==> (find(s, #[trigger] where_operators()[k]) matches Some(p) ==> p >= n),
    ensures
        lowest_operator(s, m) == Some((n, 0int)),
    decreases m,
{
    if m > 1 {
        lemma_lowest_is_equals(s, n, m - 1);
        let prev = lowest_operator(s, m - 1);
        assert(prev == Some((n, 0int)));
        match find(s, where_operators()[m - 1]) {
            None => {},
            Some(p) => {
                assert(p >= n);
            },
        }
    } else {
        assert(lowest_operator(s, 0) is None);
    }
}

/// In `c = ?...`, where `c` has no space, the first operator is the ` = `
/// right after `c`.
proof fn lemma_equals_first(c: Seq<char>, tail: Seq<char>)
    requires
        plain_name(c),
        tail.len() >= 3,
        tail.take(3) == " = "@,
    ensures
        lowest_operator(c + tail, 6) == Some((c.len() as int, 0int)),
{
    reveal_strlit(" = ");
    reveal_strlit(" >= ");
    reveal_strlit(" > ");
    reveal_strlit(" <= ");
    reveal_strlit(" < ");
    reveal_strlit(" in ");
    let s = c + tail;
    let n = c.len() as int;
    lemma_space_pattern_after(c, tail, " = "@);
    assert(s.subrange(n, n + 3) =~= tail.take(3));
    assert(occurs_at(s, " = "@, n));
    lemma_find(s, " = "@);
    assert forall|k: int| 1 <= k < 6 implies (find(s, #[trigger] where_operators()[k]) matches Some(
        p,
    ) ==> p >= n) by {
        lemma_space_pattern_after(c, tail, where_operators()[k]);
    }
    lemma_lowest_is_equals(s, n, 6);
}

/// In `c = ?` followed by nothing or by ` and ...`, where `c` has no space,
/// ` and ` first occurs right after the parameter, if at all.
proof fn lemma_and_after_parameter(c: Seq<char>, rest: Seq<char>)
    requires
        plain_name(c),
        rest.len() == 0 || (rest.len() >= 5 && rest.take(5) == " and "@),
    ensures
        rest.len() == 0 ==> find(c + (" = ?"@ + rest), " and "@) is None,
        rest.len() > 0 ==> find(c + (" = ?"@ + rest), " and "@) == Some(c.len() + 4int),
{
    reveal_strlit(" = ?");
    reveal_strlit(" and ");
    let tail = " = ?"@ + rest;
    let s = c + tail;
    let n = c.len() as int;
    lemma_space_pattern_after(c, tail, " and "@);
    lemma_find(s, " and "@);
    assert(s[n + 1] == '=');
    assert(s[n + 3] == '?');
    if rest.len() > 0 {
        assert(s.subrange(n + 4, n + 9) =~= rest.take(5));
        assert(occurs_at(s, " and "@, n + 4));
        assert(!occurs_at(s, " and "@, n)) by {
            assert(s.subrange(n, n + 5)[1] != " and "@[1]);
        }
        assert(!occurs_at(s, " and "@, n + 1)) by {
            assert(s.subrange(n + 1, n + 6)[0] != " and "@[0]);
        }
        assert(!occurs_at(s, " and "@, n + 2)) by {
            assert(s.subrange(n + 2, n + 7)[1] != " and "@[1]);
        }
        assert(!occurs_at(s, " and "@, n + 3)) by {
            assert(s.subrange(n + 3, n + 8)[0] != " and "@[0]);
        }
    }
}

/// The conditions binding each column to a parameter are read back as the
/// columns, each bound to a parameter with `=`.
#[verifier::rlimit(40)]
proof fn lemma_where_columns_read_back(cols: Seq<Seq<char>>)
    requires
        cols.len() > 0,
        forall|i: int| 0 <= i < cols.len() ==> plain_name(#[trigger] cols[i]),
    ensures
        where_columns(parameterized_spec(cols)) == Some(
            cols.map_values(|c: Seq<char>| bound_column(c)),
        ),
    decreases cols.len(),
{
    reveal_strlit(" = ?");
    reveal_strlit(" and ");
    reveal_strlit(" = ");
    reveal_strlit(" in ");
    let c = cols[0];
    let bound = cols.map_values(|x: Seq<char>| bound_to_parameter(x));
    let s = parameterized_spec(cols);
    let n = c.len() as int;
    let rest = if cols.len() == 1 {
        Seq::<char>::empty()
    } else {
        " and "@ + parameterized_spec(cols.skip(1))
    };
    assert(plain_name(c));
    if cols.len() == 1 {
        assert(s == bound[0]);
    } else {
        lemma_join_front(bound, " and "@);
        assert(bound.skip(1) =~= cols.skip(1).map_values(|x: Seq<char>| bound_to_parameter(x)));
        assert(rest.take(5) =~= " and "@);
    }
    let tail = " = ?"@ + rest;
    assert(s =~= c + tail);
    assert(tail.take(3) =~= " = "@);
    lemma_equals_first(c, tail);
    lemma_and_after_parameter(c, rest);
    assert(s.take(n) =~= c);
    assert(has_char(s.subrange(n + 3, n + 4), '?')) by {
        assert(s.subrange(n + 3, n + 4)[0] == '?');
    }
    assert(" = "@ != " in "@) by {
        assert(" = "@[1] != " in "@[1]);
    }
    if cols.len() == 1 {
        assert(cols.map_values(|x: Seq<char>| bound_column(x)) =~= seq![bound_column(c)]);
    } else {
        lemma_where_columns_read_back(cols.skip(1));
        assert(s.skip(n + 9) =~= parameterized_spec(cols.skip(1)));
        assert(cols.map_values(|x: Seq<char>| bound_column(x)) =~= seq![bound_column(c)]
            + cols.skip(1).map_values(|x: Seq<char>| bound_column(x)));
    }
}

/// The where clause on the primary key that the code generator writes
/// (` where a = ? and b = ?`) is read back by the query reader as exactly
/// the primary key columns, in order, each bound to a parameter with `=`;
/// so a generated query that selects, deletes or updates one row binds
/// every primary key column.
pub proof fn lemma_where_pk_read_back(pk: Seq<Seq<char>>)
    requires
        pk.len() > 0,
        forall|i: int| 0 <= i < pk.len() ==> plain_name(#[trigger] pk[i]),
    ensures
        columns_after_where_spec(where_pk_query(pk)) == Some(
            pk.map_values(|c: Seq<char>| bound_column(c)),
        ),
{
    reveal_strlit(" where ");
    let q = where_pk_query(pk);
    assert(q.subrange(0, 7) =~= " where "@);
    assert(occurs_at(q, " where "@, 0));
    lemma_find(q, " where "@);
    assert(find(q, " where "@) == Some(0int));
    assert(q.skip(7) =~= parameterized_spec(pk));
    lemma_where_columns_read_back(pk);
}

/// A column name without spaces, commas or parentheses, as the names of
/// Rust fields are.
pub open spec fn bare_name(c: Seq<char>) -> bool {
    forall|i: int|
        0 <= i < c.len() ==> c[i] != ' ' && c[i] != ',' && c[i] != '(' && c[i] != ')'
}

/// Whether `s` holds no occurrence of the character `x`.
pub open spec fn lacks(s: Seq<char>, x: char) -> bool {
    forall|i: int| 0 <= i < s.len() ==> s[i] != x
}

/// In `a + rest`, where `a` lacks the first character of `p`, `p` first
/// occurs at or after the end of `a`.
proof fn lemma_pattern_after(a: Seq<char>, rest: Seq<char>, p: Seq<char>)
    requires
        p.len() > 0,
        lacks(a, p[0]),
    ensures
        find(a + rest, p) matches Some(k) ==> k >= a.len(),
{
    lemma_find(a + rest, p);
    if let Some(k) = find(a + rest, p) {
        assert(occurs_at(a + rest, p, k));
        assert((a + rest).subrange(k, k + p.len())[0] == p[0]);
        if k < a.len() {
            assert((a + rest)[k] == a[k]);
        }
    }
}

/// Where `p` occurs in `a + rest` at the end of `a` and `a` lacks the
/// first character of `p`, `p` first occurs there.
proof fn lemma_first_at(a: Seq<char>, rest: Seq<char>, p: Seq<char>)
    requires
        p.len() > 0,
        lacks(a, p[0]),
        rest.len() >= p.len(),
        rest.take(p.len() as int) == p,
    ensures
        find(a + rest, p) == Some(a.len() as int),
{
    lemma_pattern_after(a, rest, p);
    assert((a + rest).subrange(a.len() as int, a.len() + p.len() as int) =~= rest.take(p.len() as int));
    assert(occurs_at(a + rest, p, a.len() as int));
    lemma_find(a + rest, p);
}

/// Splitting at `, ` the pieces joined by `, ` gives the pieces back, where
/// no piece holds a comma.
proof fn lemma_split_join(parts: Seq<Seq<char>>)
    requires
        parts.len() > 0,
        forall|i: int| 0 <= i < parts.len() ==> lacks(#[trigger] parts[i], ','),
    ensures
        split(join(parts, ", "@), ", "@) == parts,
    decreases parts.len(),
{
    reveal_strlit(", ");
    let p0 = parts[0];
    assert(lacks(p0, ','));
    if parts.len() == 1 {
        assert(join(parts, ", "@) == p0);
        lemma_pattern_after(p0, Seq::empty(), ", "@);
        assert(p0 + Seq::<char>::empty() =~= p0);
        lemma_find(p0, ", "@);
        assert(find(p0, ", "@) is None);
    } else {
        lemma_join_front(parts, ", "@);
        let rest = join(parts.skip(1), ", "@);
        let s = join(parts, ", "@);
        assert(s =~= p0 + (", "@ + rest));
        assert((", "@ + rest).take(2) =~= ", "@);
        lemma_first_at(p0, ", "@ + rest, ", "@);
        assert forall|i: int| 0 <= i < parts.skip(1).len() implies lacks(
            #[trigger] parts.skip(1)[i],
            ',',
        ) by {
            assert(parts.skip(1)[i] == parts[i + 1]);
        }
        lemma_split_join(parts.skip(1));
        assert(s.take(p0.len() as int) =~= p0);
        assert(s.skip(p0.len() + 2int) =~= rest);
        assert(parts =~= seq![p0] + parts.skip(1));
    }
}

/// The pieces joined by `, ` hold no parenthesis where no piece does.
proof fn lemma_join_lacks(parts: Seq<Seq<char>>, x: char)
    requires
        x != ',' && x != ' ',
        forall|i: int| 0 <= i < parts.len() ==> lacks(#[trigger] parts[i], x),
    ensures
        lacks(join(parts, ", "@), x),
    decreases parts.len(),
{
    reveal_strlit(", ");
    if parts.len() > 1 {
        lemma_join_lacks(parts.drop_last(), x);
        assert(lacks(parts.last(), x));
        let j = join(parts.drop_last(), ", "@);
        assert forall|i: int| 0 <= i < join(parts, ", "@).len() implies join(parts, ", "@)[i]
            != x by {
            if i < j.len() {
            } else if i < j.len() + 2 {
                assert(join(parts, ", "@)[i] == ", "@[i - j.len()]);
            } else {
                assert(join(parts, ", "@)[i] == parts.last()[i - j.len() - 2]);
            }
        }
    } else if parts.len() == 1 {
        assert(lacks(parts[0], x));
    }
}

/// The insert query that the code generator writes is read back by the
/// query reader as every column of the struct, in order, each bound to a
/// parameter; so the reader finds a value for every column.
#[verifier::rlimit(40)]
pub proof fn lemma_insert_read_back(table: Seq<char>, columns: Seq<Seq<char>>)
    requires
        columns.len() > 0,
        forall|i: int| 0 <= i < columns.len() ==> bare_name(#[trigger] columns[i]),
        lacks(table, '('),
        lacks(table, ')'),
    ensures
        insert_columns(insert_query_spec(table, columns)) == Some(
            columns.map_values(|c: Seq<char>| inserted_column(c, "?"@)),
        ),
{
    reveal_strlit("insert into ");
    reveal_strlit(" (");
    reveal_strlit(") values (");
    reveal_strlit(")");
    reveal_strlit("(");
    reveal_strlit("?");
    reveal_strlit(" ");
    reveal_strlit(" values ");
    let names = join(columns, ", "@);
    let marks = Seq::new(columns.len(), |i: int| "?"@);
    let qs = placeholders(columns.len());
    assert(qs == join(marks, ", "@));
    assert forall|i: int| 0 <= i < columns.len() implies lacks(#[trigger] columns[i], '(') && lacks(
        columns[i],
        ')',
    ) && lacks(columns[i], ',') by {
        assert(bare_name(columns[i]));
    }
    lemma_join_lacks(columns, '(');
    lemma_join_lacks(columns, ')');
    assert forall|i: int| 0 <= i < marks.len() implies lacks(#[trigger] marks[i], ')') && lacks(
        marks[i],
        ',',
    ) && lacks(marks[i], '(') by {
        assert(marks[i] == "?"@);
    }
    lemma_join_lacks(marks, ')');
    let q = insert_query_spec(table, columns);
    let head = "insert into "@ + table + " "@;
    assert(lacks(head, '(')) by {
        assert forall|i: int| 0 <= i < head.len() implies head[i] != '(' by {
            if i < 12 {
                assert(head[i] == "insert into "@[i]);
            } else if i < 12 + table.len() {
                assert(head[i] == table[i - 12]);
            } else {
                assert(head[i] == ' ');
            }
        }
    }
    let after_open = names + (") values ("@ + qs + ")"@);
    assert(q =~= head + ("("@ + after_open));
    assert(("("@ + after_open).take(1) =~= "("@);
    lemma_first_at(head, "("@ + after_open, "("@);
    let open = head.len() as int;
    let head2 = head + "("@ + names;
    assert(lacks(head2, ')')) by {
        assert forall|i: int| 0 <= i < head2.len() implies head2[i] != ')' by {
            if i < 12 {
                assert(head2[i] == "insert into "@[i]);
            } else if i < 12 + table.len() {
                assert(head2[i] == table[i - 12]);
            } else if i < open + 1 {
            } else {
                assert(head2[i] == names[i - open - 1]);
            }
        }
    }
    let tail = ") values ("@ + qs + ")"@;
    assert(q =~= head2 + tail);
    assert(tail.take(1) =~= ")"@);
    lemma_first_at(head2, tail, ")"@);
    let close = head2.len() as int;
    assert(q.subrange(open + 1, close) =~= names);
    assert(parenthesized(q) == Some(names));
    let values_part = q.skip(close + 1);
    let vhead = " values "@;
    assert(values_part =~= vhead + ("("@ + (qs + ")"@)));
    assert(lacks(vhead, '(')) by {
        assert forall|i: int| 0 <= i < vhead.len() implies vhead[i] != '(' by {
            assert(vhead[i] == ") values ("@[i + 1]);
        }
    }
    assert(("("@ + (qs + ")"@)).take(1) =~= "("@);
    lemma_first_at(vhead, "("@ + (qs + ")"@), "("@);
    let vhead2 = vhead + "("@ + qs;
    assert(lacks(vhead2, ')')) by {
        assert forall|i: int| 0 <= i < vhead2.len() implies vhead2[i] != ')' by {
            if i < 8 {
                assert(vhead2[i] == ") values ("@[i + 1]);
            } else if i < 9 {
            } else {
                assert(vhead2[i] == qs[i - 9]);
            }
        }
    }
    assert(values_part =~= vhead2 + ")"@);
    assert((")"@).take(1) =~= ")"@);
    lemma_first_at(vhead2, ")"@, ")"@);
    assert(values_part.subrange(9, vhead2.len() as int) =~= qs);
    assert(parenthesized(values_part) == Some(qs));
    lemma_split_join(columns);
    lemma_split_join(marks);
    assert(Seq::new(columns.len(), |i: int| inserted_column(split(names, ", "@)[i], split(qs, ", "@)[i]))
        =~= columns.map_values(|c: Seq<char>| inserted_column(c, "?"@)));
}

} // verus!
