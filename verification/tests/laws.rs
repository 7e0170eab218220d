use cdrs_orm::crud::columns_after_where;
use cdrs_orm::crud::insert::Insert;
use cdrs_orm::mirror::{insert_query, update_multiple_query, update_optionals_query};
use cdrs_orm::query_writer::where_pk_query_from_idents;
use cdrs_orm::schema::{ColumnKind, Columns};

fn strings(v: &[&str]) -> Vec<String> {
    v.iter().map(|s| s.to_string()).collect()
}

#[test]
fn generated_where_clause_reads_back_as_the_primary_key() {
    let pk = strings(&["id", "another_id", "cluster_key", "another_cluster_key"]);
    let read = columns_after_where(&where_pk_query_from_idents(&pk));

    assert_eq!(4, read.len());
    for (c, name) in read.iter().zip(pk.iter()) {
        assert_eq!(name, &c.column_name);
        assert!(c.parameterized);
        assert!(!c.uses_in_value);
        assert!(c.is_part_of_where_clause);
    }
}

#[test]
fn generated_insert_reads_back_as_every_column() {
    let columns = strings(&["id", "another_id", "name"]);
    let read = Insert.column_clauses(&insert_query("some_struct", &columns));

    assert_eq!(3, read.len());
    for (c, name) in read.iter().zip(columns.iter()) {
        assert_eq!(name, &c.column_name);
        assert!(c.parameterized);
        assert!(!c.is_part_of_where_clause);
    }
}

#[test]
fn all_optional_values_given_update_every_column() {
    let columns = strings(&["name", "nickname"]);
    let pk = strings(&["id"]);

    assert_eq!(
        Some(update_multiple_query("t", &columns, &pk)),
        update_optionals_query("t", &columns, &vec![true, true], &pk)
    );
}

#[test]
fn kind_names_read_back() {
    for kind in [ColumnKind::PartitionKey, ColumnKind::Clustering, ColumnKind::Regular] {
        let c = Columns {
            column_name: "a".to_string(),
            kind: kind.to_string(),
            position: 0,
            data_type: "int".to_string(),
        };
        assert_eq!(kind, c.kind());
    }
}
