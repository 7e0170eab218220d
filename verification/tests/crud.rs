use cdrs_orm::crud::delete::Delete;
use cdrs_orm::crud::insert::Insert;
use cdrs_orm::crud::select::Select;
use cdrs_orm::crud::truncate::{is_readable_truncate, Truncate};
use cdrs_orm::crud::update::Update;
use cdrs_orm::crud::{
    columns_after_where, create_query_crud, extract_columns, extract_table_name, split_query,
    try_columns_after_where, try_create_query_crud, Crud, QueryType,
};

#[test]
fn insert_test_columns_select_clause() {
    let insert = Insert;
    let q = insert.column_clauses("insert into table (a) values (1)");

    assert_eq!(q.len(), 1);
    assert_eq!("a", &q[0].column_name);
    assert!(!q[0].parameterized);

    let q = insert.column_clauses("insert into table (a, b, c) values (1, ?, 3)");

    assert_eq!(q.len(), 3);
    assert_eq!("a", &q[0].column_name);
    assert_eq!("b", &q[1].column_name);
    assert_eq!("c", &q[2].column_name);
    assert!(!q[0].parameterized);
    assert!(q[1].parameterized);
    assert!(!q[2].parameterized);
}

#[test]
fn test_query_before_process() {
    let query = "select * from some_table where a = 1 and b = ?";
    let before_where = "select * from some_table";
    let (query_extracted, before_where_extracted) = split_query(query);

    assert_eq!(query, query_extracted);
    assert_eq!(before_where, before_where_extracted);

    let (query_extracted, before_where_extracted) =
        split_query("select * from some_table where a = 1 and b = ? limit 100");

    assert_eq!(
        "select * from some_table where a = 1 and b = ?",
        query_extracted
    );
    assert_eq!(before_where, before_where_extracted);

    let query = "insert into my_table(a, b) values (1, ?)";
    let (query_extracted, before_where_extracted) = split_query(query);

    assert_eq!(query, query_extracted);
    assert_eq!(query, before_where_extracted);
}

#[test]
fn split_query_cuts_at_the_last_limit() {
    let (q, p) = split_query("select * from my_table where a = 1 limit 5");

    assert_eq!("select * from my_table where a = 1", q);
    assert_eq!("select * from my_table", p);

    let (q, p) = split_query("select * from t where a = ' limit ' limit 5");
    assert_eq!("select * from t where a = ' limit '", q);
    assert_eq!("select * from t", p);
}

#[test]
fn test_columns_after_where() {
    let v = columns_after_where("");

    assert!(v.is_empty());

    let v = columns_after_where("select * from dummy");

    assert!(v.is_empty());

    let v = columns_after_where("select * from dummy where a = 1");

    assert_eq!("a", &v[0].column_name);
    assert!(!v[0].parameterized);
    assert!(!v[0].uses_in_value);

    let v = columns_after_where("select * from dummy where a = ?");

    assert_eq!("a", &v[0].column_name);
    assert!(v[0].parameterized);
    assert!(!v[0].uses_in_value);

    let v = columns_after_where("select * from dummy where a in ?");

    assert_eq!("a", &v[0].column_name);
    assert!(v[0].parameterized);
    assert!(v[0].uses_in_value);

    let v = columns_after_where("select * from dummy where a = 1 and b > 0 and c <= somethingrandom and d < ? and e in (hi) and f = 2");

    assert_eq!("a", &v[0].column_name);
    assert_eq!("b", &v[1].column_name);
    assert_eq!("c", &v[2].column_name);
    assert_eq!("d", &v[3].column_name);
    assert_eq!("e", &v[4].column_name);
    assert_eq!("f", &v[5].column_name);
    assert!(!v[0].parameterized);
    assert!(!v[1].parameterized);
    assert!(!v[2].parameterized);
    assert!(v[3].parameterized);
    assert!(!v[4].parameterized);
    assert!(!v[5].parameterized);

    let v =
        columns_after_where("select * from test_table where b = ? and c = 5 and d in ? limit 1");

    assert!(!v[0].uses_in_value);
    assert!(v[0].parameterized);
    assert!(!v[1].uses_in_value);
    assert!(!v[1].parameterized);
    assert!(v[2].uses_in_value);
    assert!(v[2].parameterized);
}

#[test]
fn columns_after_where_are_all_in_the_where_clause() {
    let v = columns_after_where("select * from t where a = ? and b >= 3 and c in ?");

    assert_eq!(3, v.len());
    assert!(v.iter().all(|c| c.is_part_of_where_clause));
}

#[test]
fn columns_after_where_refuses_a_value_that_ends_before_it_starts() {
    assert!(try_columns_after_where("select * from t where a and b = 1").is_none());
}

#[test]
fn test_extract_columns() {
    let select = Crud::Select;

    let c = extract_columns(
        "select a, b as c, d from table where a = 1 and b > 2 and e in ? limit ?",
        &select,
    );

    assert_eq!(6, c.len());
    assert_eq!("a", &c[0].column_name);
    assert_eq!("b", &c[1].column_name);
    assert_eq!("d", &c[2].column_name);
    assert_eq!("a", &c[3].column_name);
    assert_eq!("b", &c[4].column_name);
    assert_eq!("e", &c[5].column_name);
}

#[test]
fn extract_columns_of_a_select_with_only_selected_columns() {
    let c = extract_columns("select b, c from my_table where a = 1", &Crud::Select);

    assert_eq!(3, c.len());
    assert_eq!("b", &c[0].column_name);
    assert!(!c[0].is_part_of_where_clause);
    assert_eq!("c", &c[1].column_name);
    assert!(!c[1].parameterized);
    assert_eq!("a", &c[2].column_name);
    assert!(c[2].is_part_of_where_clause);
}

#[test]
fn select_test_columns_select_clause() {
    let select = Select;
    let q = select.column_clauses("select * from table");

    assert_eq!(0, q.len());

    let q = select.column_clauses("select 1 from table");

    assert_eq!(1, q.len());
    assert_eq!("1", &q[0].column_name);

    let q = select.column_clauses("select 1, 2 as j, 3 from table");

    assert_eq!(3, q.len());
    assert_eq!("1", &q[0].column_name);
    assert_eq!("2", &q[1].column_name);
    assert_eq!("3", &q[2].column_name);
}

#[test]
fn test_columns_truncate() {
    let select = Truncate;
    let _ = select.column_clauses("truncate my_table");
}

#[test]
fn truncate_with_a_where_clause_is_not_readable() {
    assert!(is_readable_truncate("truncate my_table"));
    assert!(!is_readable_truncate("truncate my_table where a = 1"));
}

#[test]
fn test_columns_update_clause() {
    let update = Update;
    let q = update.column_clauses("update table set a = 1");

    assert_eq!(1, q.len());
    assert_eq!("a", &q[0].column_name);

    let q = update.column_clauses("update table set a = 1, b = ?, c = 3");

    assert_eq!(3, q.len());
    assert_eq!("a", &q[0].column_name);
    assert_eq!("b", &q[1].column_name);
    assert_eq!("c", &q[2].column_name);
    assert!(!q[0].parameterized);
    assert!(q[1].parameterized);
    assert!(!q[2].parameterized);

    let q = update.column_clauses("update table set a = ?, b = ?");

    assert!(q[0].parameterized);
    assert!(q[1].parameterized);
}

#[test]
fn delete_has_no_column_clauses() {
    assert!(Delete.column_clauses("delete from t where a = 1").is_empty());
}

#[test]
fn test_query_to_table_name() {
    let table_name = "TABLE";
    let check = |t: String| {
        let crud = create_query_crud(&t);

        assert_eq!(table_name, extract_table_name(&t, &crud));
    };

    check(format!("select * from {}", table_name));
    check(format!(
        "select test, test2 from {} where pk = 1",
        table_name
    ));

    check(format!("update {}", table_name));
    check(format!("update {} set a = 1", table_name));
    check(format!("update {} set a = 1 where a = 2", table_name));

    check(format!("insert into {} (a) values (1)", table_name));

    check(format!("delete from {} where 1 = 1", table_name));
}

#[test]
fn unknown_query_kind_has_no_crud() {
    assert!(try_create_query_crud("drop table t").is_none());
    assert!(matches!(create_query_crud("truncate t"), Crud::Truncate));
}

#[test]
fn query_types_are_distinct() {
    assert_ne!(QueryType::SelectUnique, QueryType::SelectMultiple);
}
