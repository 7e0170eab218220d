use cdrs_orm::query_writer::pk_struct_str;

#[test]
fn lib_test_compile() {}

#[test]
fn pk_struct_name_appends_primary_key() {
    assert_eq!("SomeStructPrimaryKey", pk_struct_str("SomeStruct"));
}
