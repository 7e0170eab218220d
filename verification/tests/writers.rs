use cdrs_orm::impl_writer::ImplWriter;
use cdrs_orm::method_writer::{
    inf, plan_methods, read_attributes, Crud, Field, Inf, MethodNames, PlannedMethod, Update,
};
use cdrs_orm::mirror::{
    custom_derives, delete_unique_query, insert_query, insert_query_using_ttl, mirror_constant,
    replace_by_query, replace_qv_by_query, select_all_query, select_unique_query, truncate_query,
    unique_query_const_name, update_column_const_name, update_column_query, update_multiple_query,
    update_optionals_query,
};
use cdrs_orm::query_writer::{
    add_query_and_uppercase, parameterized, pk_parameter, primary_key, update_single_column,
    updatable_columns_enum, where_pk_query_from_idents, INSERT, TRUNCATE,
};
use cdrs_orm::capitalizing::struct_name_to_db_table_name;

fn strings(v: &[&str]) -> Vec<String> {
    v.iter().map(|s| s.to_string()).collect()
}

fn field(name: &str, partition_key: bool, clustering_key: bool) -> Field {
    Field {
        name: name.to_string(),
        partition_key,
        clustering_key,
        json_mapped: false,
    }
}

fn some_struct_fields() -> Vec<Field> {
    vec![
        field("id", true, false),
        field("another_id", true, false),
        field("cluster_key", false, true),
        field("another_cluster_key", false, true),
        field("name", false, false),
    ]
}

fn foo_struct_inf() -> Inf {
    inf(
        "FooStruct",
        &vec![
            field("id", true, false),
            field("cluster_key", false, true),
            field("name", false, false),
            field("nickname", false, false),
        ],
        true,
        None,
    )
}

fn constant_of(inf: &Inf, plan: &[PlannedMethod], crud: Crud) -> (String, String) {
    let m = plan.iter().find(|m| m.crud == crud).unwrap();
    let c = mirror_constant(inf, m).unwrap();
    (c.name, c.query)
}

#[test]
fn test_truncate() {
    let query = truncate_query(&struct_name_to_db_table_name("FooStruct", true));

    assert_eq!("truncate foo_struct", query);

    let inf = foo_struct_inf();
    let plan = plan_methods(&inf, &MethodNames::defaults());
    assert_eq!(
        ("TRUNCATE_QUERY".to_string(), "truncate foo_struct".to_string()),
        constant_of(&inf, &plan, Crud::Truncate)
    );
}

#[test]
fn test_methods_available() {
    let writer = ImplWriter;
    let inf = inf("SomeStruct", &some_struct_fields(), true, None);
    let plan = plan_methods(&inf, &writer.method_names());
    let mut written = Vec::new();

    for m in plan.iter() {
        assert!(writer.check(m));
        if let Some(name) = writer.write(m) {
            written.push(name);
        }
    }

    for name in ["c_select_unique", "c_delete_unique", "c_insert_unique", "c_update_opt", "c_update_name"] {
        assert!(written.iter().any(|w| w == name), "{}", name);
    }
}

#[test]
fn impl_writer_sees_the_table_information() {
    let inf = inf("SomeStruct", &some_struct_fields(), true, None);

    assert_eq!("SomeStruct", inf.name);
    assert_eq!("some_struct", inf.table_name);
    assert_eq!("SomeStructPrimaryKey", inf.pk_struct);
    assert_eq!(1, inf.non_pk_fields.len());
    assert_eq!(5, inf.fields.len());
    assert_eq!(4, inf.pk_fields.len());
    assert_eq!(2, inf.clustering_fields.len());
    assert_eq!(2, inf.partition_fields.len());
    assert_eq!("primary_key", inf.pk_parameter);
    assert_eq!("SomeStructUpdatableColumns", inf.updateable_columns_enum);
    assert_eq!("dyn_column", inf.updateable_columns_enum_parameter);
}

#[test]
fn impl_writer_refuses_foreign_names() {
    let writer = ImplWriter;
    let m = PlannedMethod {
        db_mirror_fn_name: INSERT.to_string(),
        custom_fn_name: INSERT.to_string(),
        crud: Crud::InsertUnique(false),
    };
    assert!(!writer.check(&m));

    let dynamic = PlannedMethod {
        db_mirror_fn_name: "update_dyn_qv".to_string(),
        custom_fn_name: "update_dyn_qv".to_string(),
        crud: Crud::UpdateUnique(Update::Dynamic),
    };
    assert!(writer.check(&dynamic));
    assert_eq!(None, writer.write(&dynamic));
}

#[test]
fn plan_for_a_table_and_a_materialized_view() {
    let inf = foo_struct_inf();
    let names = MethodNames::defaults();
    let plan = plan_methods(&inf, &names);
    let db: Vec<&str> = plan.iter().map(|m| m.db_mirror_fn_name.as_str()).collect();

    assert_eq!(
        vec![
            "select_unique_qv",
            "select_all_q",
            "select_all_count_q",
            "insert_qv",
            "insert_using_ttl_qv",
            "update_dyn_qv",
            "update_qv",
            "update_multiple_qv",
            "update_qv_name",
            "update_qv_nickname",
            "delete_unique_qv",
            "truncate_q",
        ],
        db
    );

    let no_regular = inf_without_regular_columns();
    let plan = plan_methods(&no_regular, &names);
    assert_eq!(8, plan.len());

    let mut mv = foo_struct_inf();
    mv.materialized_view = Some(cdrs_orm::materialized_view::MaterializedViewInf {
        struct_name: "FooStruct".to_string(),
        base_table_name: "foo_struct".to_string(),
        same_columns: true,
    });
    let plan = plan_methods(&mv, &names);
    assert_eq!(3, plan.len());
}

fn inf_without_regular_columns() -> Inf {
    inf("Key", &vec![field("id", true, false)], true, None)
}

#[test]
fn read_attributes_keeps_the_order_of_the_struct() {
    let mut fields = some_struct_fields();
    fields[4].json_mapped = true;
    let (p, c, j) = read_attributes(&fields);

    assert_eq!(strings(&["id", "another_id"]), p);
    assert_eq!(strings(&["cluster_key", "another_cluster_key"]), c);
    assert_eq!(strings(&["name"]), j);
}

#[test]
fn test_insert_query() {
    let inf = inf("SomeStruct", &some_struct_fields(), true, None);
    let plan = plan_methods(&inf, &MethodNames::defaults());

    assert_eq!(
        (
            "INSERT_QUERY".to_string(),
            "insert into some_struct (id, another_id, cluster_key, another_cluster_key, name) values (?, ?, ?, ?, ?)".to_string()
        ),
        constant_of(&inf, &plan, Crud::InsertUnique(false))
    );
    assert_eq!(
        (
            "INSERT_QUERY_USING_TTL".to_string(),
            "insert into some_struct (id, another_id, cluster_key, another_cluster_key, name) values (?, ?, ?, ?, ?) using ttl ?".to_string()
        ),
        constant_of(&inf, &plan, Crud::InsertUnique(true))
    );
}

#[test]
fn test_update_queries() {
    let inf = foo_struct_inf();
    let pk = strings(&["id", "cluster_key"]);
    let columns = strings(&["name", "nickname"]);

    assert_eq!(
        Some("update foo_struct set name = ? where id = ? and cluster_key = ?".to_string()),
        update_optionals_query("foo_struct", &columns, &vec![true, false], &pk)
    );
    assert_eq!(
        Some("update foo_struct set name = ?, nickname = ? where id = ? and cluster_key = ?".to_string()),
        update_optionals_query("foo_struct", &columns, &vec![true, true], &pk)
    );
    assert_eq!(None, update_optionals_query("foo_struct", &columns, &vec![false, false], &pk));
    assert_eq!(
        "update foo_struct set name = ? where id = ? and cluster_key = ?",
        update_multiple_query("foo_struct", &strings(&["name"]), &pk)
    );
    assert_eq!(
        "update foo_struct set name = ?, nickname = ? where id = ? and cluster_key = ?",
        update_multiple_query("foo_struct", &columns, &pk)
    );

    let plan = plan_methods(&inf, &MethodNames::defaults());
    assert_eq!(
        (
            "UPDATE_NAME_QUERY".to_string(),
            "update foo_struct set name = ? where id = ? and cluster_key = ?".to_string()
        ),
        constant_of(&inf, &plan, Crud::UpdateUnique(Update::SingleColumn(0)))
    );
    assert!(plan
        .iter()
        .filter(|m| matches!(m.crud, Crud::UpdateUnique(Update::AllOptional | Update::Dynamic | Update::DynamicVec)))
        .all(|m| mirror_constant(&inf, m).is_none()));
}

#[test]
fn test_dyn_update() {
    let pk = strings(&["id", "cluster_key"]);
    assert_eq!(
        update_column_query("foo_struct", "name", &pk),
        update_multiple_query("foo_struct", &strings(&["name"]), &pk)
    );
}

#[test]
fn test_select_queries() {
    let inf = inf("UuidStruct", &vec![field("id", true, false), field("name", false, false)], true, None);
    let plan = plan_methods(&inf, &MethodNames::defaults());

    assert_eq!(
        ("SELECT_UNIQUE_QUERY".to_string(), "select * from uuid_struct where id = ?".to_string()),
        constant_of(&inf, &plan, Crud::SelectUnique)
    );
    assert_eq!(
        ("SELECT_ALL_QUERY".to_string(), "select * from uuid_struct".to_string()),
        constant_of(&inf, &plan, Crud::SelectAll)
    );
    assert_eq!(
        ("SELECT_ALL_COUNT_QUERY".to_string(), "select count(*) from uuid_struct".to_string()),
        constant_of(&inf, &plan, Crud::SelectAllCount)
    );
    assert_eq!(
        ("DELETE_UNIQUE_QUERY".to_string(), "delete from uuid_struct where id = ?".to_string()),
        constant_of(&inf, &plan, Crud::DeleteUnique)
    );
}

#[test]
fn test_primary_key() {
    assert_eq!(
        " where id = ? and another_id = ? and cluster_key = ? and another_cluster_key = ?",
        where_pk_query_from_idents(&strings(&["id", "another_id", "cluster_key", "another_cluster_key"]))
    );
}

#[test]
fn query_texts() {
    let pk = strings(&["a", "b"]);
    assert_eq!("a = ? and b = ?", parameterized(&pk));
    assert_eq!("", parameterized(&vec![]));
    assert_eq!("insert into t () values ()", insert_query("t", &vec![]));
    assert_eq!("insert into t (a) values (?) using ttl ?", insert_query_using_ttl("t", &strings(&["a"])));
    assert_eq!("select * from t where a = ? and b = ?", select_unique_query("t", &pk));
    assert_eq!("delete from t where a = ? and b = ?", delete_unique_query("t", &pk));
    assert_eq!("select count(*) from t", select_all_query("t", "count(*)"));
    assert_eq!("update t set c = ? where a = ? and b = ?", update_column_query("t", "c", &pk));
}

#[test]
fn constant_names() {
    assert_eq!("INSERT_QUERY", replace_qv_by_query("insert_qv"));
    assert_eq!("INSERTQUERY", replace_by_query("insert_", 1));
    assert_eq!("SELECT_UNIQUE_QUERY", unique_query_const_name("select_unique_qv"));
    assert_eq!("UPDATE_NAME_QUERY", update_column_const_name("update_qv_name"));
    assert_eq!("SELECT_ALL_QUERY", add_query_and_uppercase("select_all"));
    assert_eq!("update_qv_name", update_single_column("name"));
    assert_eq!("WHERE_CLAUSE_PK", primary_key());
    assert_eq!("primary_key", pk_parameter());
    assert_eq!("FooStructUpdatableColumns", updatable_columns_enum("FooStruct"));
    assert_eq!("truncate_q", TRUNCATE);
}

#[test]
fn test_extract_custom_derives() {
    assert!(custom_derives("").is_empty());
    assert_eq!(strings(&["Copy"]), custom_derives("Copy"));
    assert_eq!(strings(&["Copy", "Clone", "Something"]), custom_derives("Copy,Clone,Something"));
}

#[test]
fn custom_writer_names_for_a_column() {
    let writer = ImplWriter;
    assert_eq!("c_update_name", writer.fn_name_update_column("name"));
    assert_eq!("update_qv_name", MethodNames::defaults().fn_name_update_column("name"));
}
