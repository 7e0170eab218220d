use cdrs_orm::ci::{ci_steps, command_args, fill_template, package_name, step_lines, without_quotes};
use cdrs_orm::crud::{ColumnValue, QueryType};
use cdrs_orm::materialized_view::{
    materialized_view_inf, query_for_materialized_view, query_for_named_materialized_view,
    MaterializedView,
};
use cdrs_orm::query_executor::{extract_query_meta_data, QueryMetaData};
use cdrs_orm::query_macro::{
    argument_types, arguments_fit_exec, query_between_quotes, query_type_code, test_values,
};
use cdrs_orm::schema::{columns_query, ColumnKind, Columns};
use cdrs_orm::some_struct::{
    SomeSerializedStruct, SomeStruct, SomeStructPrimaryKey, SomeStructUpdatableColumns,
};
use cdrs_orm::supported_data_types::CassandraDataType;

fn some_struct() -> SomeStruct {
    SomeStruct {
        id: 1,
        another_id: 2,
        cluster_key: 3,
        another_cluster_key: 4,
        name: "name".to_string(),
    }
}

#[test]
fn test_primary_key_without_clone() {
    let some_struct = SomeStruct {
        id: 0,
        another_id: 0,
        cluster_key: 2,
        another_cluster_key: 0,
        name: "nameee".to_string(),
    };

    let _ = some_struct.clone_primary_key();
    let pk = some_struct.clone_primary_key();

    assert_eq!(pk, some_struct.primary_key());
}

#[test]
fn primary_key_values_in_column_order() {
    let s = some_struct();
    let pk = s.clone_primary_key();

    assert_eq!(s.id, pk.id);
    assert_eq!(s.another_cluster_key, pk.another_cluster_key);
    assert_eq!(vec![1, 2, 3, 4], pk.where_clause_raw());
    assert_eq!(
        SomeStructPrimaryKey { id: 1, another_id: 1, cluster_key: 1, another_cluster_key: 1 }
            .where_clause_raw(),
        vec![1, 1, 1, 1]
    );
    assert_eq!("name", SomeStructUpdatableColumns::Name("x".to_string()).column_name());
    assert_eq!(3, SomeSerializedStruct { id: 3 }.id);
}

fn column(name: &str, kind: &str, data_type: &str) -> Columns {
    Columns {
        column_name: name.to_string(),
        kind: kind.to_string(),
        position: 0,
        data_type: data_type.to_string(),
    }
}

fn test_table() -> Vec<Columns> {
    vec![
        column("a", "clustering", "int"),
        column("b", "partition_key", "text"),
        column("c", "partition_key", "uuid"),
        column("d", "clustering", "int"),
        column("e", "regular", "int"),
    ]
}

fn qmd(query: &str) -> QueryMetaData {
    extract_query_meta_data(query, &test_table(), true).unwrap()
}

#[test]
fn argument_types_of_a_query() {
    let q = qmd("select * from test_table where b = ? and c in ? limit ?");
    let n = q.parameterized_columns_data_types.len();

    assert!(arguments_fit_exec(&q, n));
    let types = argument_types(&q, n);
    assert_eq!(3, types.len());
    assert_eq!("String", types[0].ty);
    assert_eq!("String", types[0].ty_comparison);
    assert_eq!("std::vec::Vec<uuid::Uuid>", types[1].ty);
    assert_eq!("std::vec::Vec::<uuid::Uuid>", types[1].ty_comparison);
    assert_eq!("i32", types[2].ty);
    assert!(!arguments_fit_exec(&q, n + 1));
}

#[test]
fn test_values_of_a_query() {
    let q = qmd("select * from test_table where b = ? and c in ? limit ?");
    assert_eq!(
        vec![
            (CassandraDataType::Text, false),
            (CassandraDataType::Uuid, true),
            (CassandraDataType::Int, false)
        ],
        test_values(&q, "select * from test_table where b = ? and c in ? limit ?")
    );

    let q = qmd("select * from test_table where b = 1");
    assert!(test_values(&q, "select * from test_table where b = 1").is_empty());
}

#[test]
fn query_from_literal_debug_text() {
    assert_eq!(
        "select * from t",
        query_between_quotes("LitStr { token: \"select * from t\" }")
    );
}

#[test]
fn query_type_codes() {
    assert_eq!(0, query_type_code(QueryType::SelectMultiple));
    assert_eq!(1, query_type_code(QueryType::SelectUnique));
    assert_eq!(7, query_type_code(QueryType::InsertUnique));
    assert_eq!(8, query_type_code(QueryType::Truncate));
}

#[test]
fn ci_steps_of_a_package() {
    let steps = ci_steps("cdrs_con", "cdrs_ci");
    let commands: Vec<&str> = steps.iter().map(|s| s.command.as_str()).collect();
    assert_eq!(
        vec!["clean", "build", "fmt", "fix", "test", "clean", "build", "clippy"],
        commands
    );
    assert_eq!(
        vec!["test", "--package", "cdrs_con", "--verbose", "--", "--test-threads=1"],
        command_args(&steps[4], "cdrs_con")
    );
    assert!(!steps[2].for_ci);

    let own = ci_steps("cdrs_ci", "cdrs_ci");
    let commands: Vec<&str> = own.iter().map(|s| s.command.as_str()).collect();
    assert_eq!(vec!["fmt", "fix", "test", "clippy"], commands);
}

#[test]
fn ci_texts() {
    assert_eq!("cdrs_con", package_name("cdrs_con 0.1.0 (path+file:///x)"));
    assert_eq!(
        "image: cassandra, name: cassandra-ci",
        fill_template("image: $IMAGE$, name: $CONTAINER$-ci", "cassandra", "cassandra")
    );
    assert_eq!("cargo test", without_quotes("\"cargo\" \"test\""));
    assert_eq!(
        ("  - name: test p".to_string(), "    run: cargo test".to_string()),
        step_lines("  ", "test", "p", "cargo test")
    );
}

#[test]
fn materialized_view_queries() {
    assert_eq!(
        "select view_name as table_name, base_table_name from system_schema.views where keyspace_name = 'ks'",
        query_for_materialized_view("ks")
    );
    assert_eq!(
        "select view_name as table_name, base_table_name from system_schema.views where keyspace_name = 'ks' and view_name = 'mv'",
        query_for_named_materialized_view("ks", "mv")
    );
    let mv = MaterializedView {
        table_name: "test_table_mv".to_string(),
        base_table_name: "test_table".to_string(),
    };
    let a = vec!["a".to_string(), "b".to_string()];
    let b = vec!["b".to_string(), "a".to_string(), "a".to_string()];
    let inf = materialized_view_inf(&mv, &a, &b, true);
    assert_eq!("TestTable", inf.struct_name);
    assert_eq!("test_table", inf.base_table_name);
    assert!(inf.same_columns);
    let c = vec!["a".to_string()];
    assert!(!materialized_view_inf(&mv, &a, &c, true).same_columns);
}

#[test]
fn data_types_and_kinds() {
    assert_eq!(CassandraDataType::Int, CassandraDataType::new("int"));
    assert_eq!(None, CassandraDataType::try_new("blob"));
    assert_eq!("uuid::Uuid", CassandraDataType::Uuid.to_ty());
    assert_eq!("i64", CassandraDataType::Counter.to_ty());
    assert!(ColumnKind::Clustering.is_part_of_pk());
    assert!(!ColumnKind::Regular.is_part_of_pk());
    assert_eq!("partition_key", ColumnKind::PartitionKey.to_string());
    assert_eq!(ColumnKind::Regular, column("x", "regular", "int").kind());
    assert_eq!(None, column("x", "static", "int").try_kind());
    assert_eq!(
        "select column_name, clustering_order, kind, position, type as data_type from system_schema.columns where keyspace_name = 'ks' and table_name = 'testtable'",
        columns_query("ks", "TestTable")
    );
}

#[test]
fn column_value_equality() {
    let c = ColumnValue {
        column_name: "a".to_string(),
        parameterized: true,
        uses_in_value: false,
        is_part_of_where_clause: true,
    };
    assert_eq!(c, qmd("select * from test_table where a = ?").extracted_columns[0]);
}
