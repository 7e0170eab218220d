use cdrs_orm::crud::{ColumnValue, ExtractColumn, QueryType};
use cdrs_orm::query_executor::{
    check_subset_and_keep_parameterized_columns, extract_query_meta_data, extract_ttl,
    ttl_from_clause, QueryError, QueryMetaData,
};
use cdrs_orm::schema::Columns;
use cdrs_orm::supported_data_types::CassandraDataType;

fn column(name: &str, kind: &str, position: i32, data_type: &str) -> Columns {
    Columns {
        column_name: name.to_string(),
        kind: kind.to_string(),
        position,
        data_type: data_type.to_string(),
    }
}

/// The columns of `test_table (a int, b int, c int, d int, e int, primary key((b, c), d, a))`.
fn test_table() -> Vec<Columns> {
    vec![
        column("a", "clustering", 1, "int"),
        column("b", "partition_key", 0, "int"),
        column("c", "partition_key", 1, "int"),
        column("d", "clustering", 0, "int"),
        column("e", "regular", -1, "int"),
    ]
}

fn check_subset_columns() -> Vec<Columns> {
    vec![
        Columns {
            column_name: "a".to_string(),
            kind: "".to_string(),
            position: 0,
            data_type: "".to_string(),
        },
        Columns {
            column_name: "b".to_string(),
            kind: "".to_string(),
            position: 0,
            data_type: "".to_string(),
        },
    ]
}

fn create_columns_used_in_query(value: &str) -> ExtractColumn {
    vec![ColumnValue {
        column_name: value.to_string(),
        parameterized: true,
        uses_in_value: false,
        is_part_of_where_clause: false,
    }]
}

#[test]
fn test_check_subset() {
    let c = check_subset_columns();
    let r = check_subset_and_keep_parameterized_columns(&c, &create_columns_used_in_query("a"))
        .unwrap();

    assert_eq!(1, r.len());
    assert_eq!("a", r[0].column_name.as_str());
}

#[test]
fn test_check_subset_fail() {
    let columns = check_subset_columns();
    let r = check_subset_and_keep_parameterized_columns(
        &columns,
        &create_columns_used_in_query("c"),
    );

    assert!(matches!(r, Err(QueryError::IllegalColumn(ref c)) if c == "c"));
}

#[test]
fn test_extract_query_meta_data() {
    let qmd = extract_query_meta_data(
        "select * from test_table where a = ? and b = 1 limit ?",
        &test_table(),
        true,
    );

    assert_eq!(
        Ok(QueryMetaData {
            extracted_columns: vec![
                ColumnValue {
                    column_name: "a".to_string(),
                    parameterized: true,
                    uses_in_value: false,
                    is_part_of_where_clause: true,
                },
                ColumnValue {
                    column_name: "b".to_string(),
                    parameterized: false,
                    uses_in_value: false,
                    is_part_of_where_clause: true,
                }
            ],
            parameterized_columns_data_types: vec![CassandraDataType::Int, CassandraDataType::Int],
            query_type: QueryType::SelectMultiple,
            struct_name: "TestTable".to_string(),
            limited: true,
            ttl: None
        }),
        qmd
    );
}

fn query_type(query: &str) -> QueryType {
    extract_query_meta_data(query, &test_table(), true).unwrap().query_type
}

#[test]
fn query_types_of_accepted_queries() {
    assert_eq!(QueryType::SelectMultiple, query_type("select * from test_table"));
    assert_eq!(
        QueryType::SelectUnique,
        query_type("select * from test_table where b = 1 and c = 2 and d = 3 and a = 3")
    );
    assert_eq!(QueryType::SelectUniqueByLimit, query_type("select * from test_table limit 1"));
    assert_eq!(
        QueryType::SelectCount,
        query_type("select count(*) from test_table where b = 1 and c = 2")
    );
    assert_eq!(
        QueryType::UpdateUnique,
        query_type("update test_table set e = 3 where b = 1 and c = 2 and d = 3 and a = 3")
    );
    assert_eq!(QueryType::UpdateUnique, query_type("update test_table set e = 3 where b = 1"));
    assert_eq!(QueryType::DeleteMultiple, query_type("delete from test_table where b = 1 and c = 3"));
    assert_eq!(
        QueryType::DeleteUnique,
        query_type("delete from test_table where b = 1 and c = 3 and d = 4 and a = 2")
    );
    assert_eq!(
        QueryType::InsertUnique,
        query_type("insert into test_table (b, c, d, a, e) values (2, 3, 4, 5, 6)")
    );
    assert_eq!(QueryType::Truncate, query_type("truncate test_table"));
}

#[test]
fn in_values_are_lists_of_the_column_type() {
    let qmd = extract_query_meta_data(
        "select * from test_table where b = ? and c in ? limit ?",
        &test_table(),
        true,
    )
    .unwrap();

    assert_eq!(3, qmd.parameterized_columns_data_types.len());
    assert!(qmd.extracted_columns[1].uses_in_value);
    assert!(qmd.limited);
}

#[test]
fn ttl() {
    assert_eq!(Ok(None), extract_ttl("insert into no_ttl(c) values (1)"));
    assert_eq!(
        Ok(Some(("insert into no_ttl(c) values (1)".to_string(), 102))),
        extract_ttl("insert into no_ttl(c) values (1) using ttl 102")
    );
    assert_eq!(
        Ok(None),
        extract_ttl("insert into test_table (a, b, c, d, e) values (2, ?, 4, ?, 5) using ttl ?")
    );
}

#[test]
fn ttl_errors() {
    assert_eq!(
        Err(QueryError::TtlNotAtEnd),
        extract_ttl("insert into t (a) values (1) using ttl 5 if not exists")
    );
    assert_eq!(
        Err(QueryError::TtlOutsideInsert),
        extract_ttl("update t using ttl 5")
    );
    assert_eq!(
        Err(QueryError::TtlNotANumber),
        extract_ttl("insert into t (a) values (1) using ttl abc")
    );
    assert_eq!(
        Err(QueryError::TtlNotANumber),
        ttl_from_clause("insert into t (a) values (1) using ttl 99999999999", Some(" using ttl 99999999999"))
    );
}

#[test]
fn meta_data_keeps_the_ttl() {
    let qmd = extract_query_meta_data(
        "insert into test_table (a, b, c, d, e) values (1, ?, 2, ?, 3) using ttl 12345678",
        &test_table(),
        true,
    )
    .unwrap();

    assert_eq!(Some(12345678), qmd.ttl);
    assert_eq!(QueryType::InsertUnique, qmd.query_type);
    assert_eq!(2, qmd.parameterized_columns_data_types.len());
}

#[test]
fn refused_queries() {
    let t = test_table();

    assert_eq!(
        Err(QueryError::UnknownQueryKind),
        extract_query_meta_data("drop table test_table", &t, true)
    );
    assert_eq!(
        Err(QueryError::TableNotFound),
        extract_query_meta_data("select * from test_table", &vec![], true)
    );
    assert_eq!(
        Err(QueryError::InsertMissingValues),
        extract_query_meta_data("insert into test_table (a, b) values (1, 2)", &t, true)
    );
    assert_eq!(
        Err(QueryError::IllegalColumn("z".to_string())),
        extract_query_meta_data("select * from test_table where z = 1", &t, true)
    );
    assert_eq!(
        Err(QueryError::CountAndLimit),
        extract_query_meta_data("select count(*) from test_table limit 1", &t, true)
    );
    assert_eq!(
        Err(QueryError::UnreadableQuery),
        extract_query_meta_data("select * from test_table where a and b = 1", &t, true)
    );
    assert_eq!(
        Err(QueryError::RefusedQueryType),
        extract_query_meta_data("select * from test_table where b in (?)", &t, true)
    );
}

#[test]
fn unsupported_data_type_and_kind() {
    let t = vec![column("a", "partition_key", 0, "blob")];
    assert_eq!(
        Err(QueryError::UnsupportedDataType("blob".to_string())),
        extract_query_meta_data("select * from t where a = ?", &t, false)
    );

    let t = vec![column("a", "static", 0, "int")];
    assert_eq!(
        Err(QueryError::InvalidColumnKind("static".to_string())),
        extract_query_meta_data("select * from t where a = 1", &t, false)
    );
}

#[test]
fn queries_without_using_ttl_have_no_ttl() {
    let qmd = extract_query_meta_data(
        "insert into test_table (a, b, c, d, e) values (1, 2, 3, 4, 5)",
        &test_table(),
        true,
    )
    .unwrap();

    assert_eq!(None, qmd.ttl);
    assert_eq!(Ok(None), extract_ttl("insert into t (a) values (1)"));
}
