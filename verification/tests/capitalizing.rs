use cdrs_orm::capitalizing::{
    capitalize_letter_after_symbol, capitalized, snake_case_to_upper_camel_case,
    struct_name_to_db_table_name, table_name_to_struct_name, try_capitalize_letter_after_symbol,
    try_snake_case_to_upper_camel_case, try_table_name_to_struct_name,
};

#[test]
fn test_capitalized() {
    assert_eq!("A", capitalized("a"));
    assert_eq!("ABc", capitalized("aBc"));
}

#[test]
fn test_capitalize_letter_after_symbol() {
    assert_eq!("aBcC", capitalize_letter_after_symbol("a_bc_c", '_'))
}

#[test]
fn struct_name_to_table_name_keeps_or_snake_cases() {
    let struct_name = "SomeStructName";

    assert_eq!(struct_name, struct_name_to_db_table_name(struct_name, false));
    assert_eq!("some_struct_name", struct_name_to_db_table_name(struct_name, true));
    assert_eq!("foo_struct", struct_name_to_db_table_name("FooStruct", true));
    assert_eq!("some_struct", struct_name_to_db_table_name("SomeStruct", true));
}

#[test]
fn table_name_to_struct_name_capitalizes() {
    assert_eq!("FooStruct", table_name_to_struct_name("foo_struct", true));
    assert_eq!("foo_struct", table_name_to_struct_name("foo_struct", false));
    assert_eq!(Some("TestTable".to_string()), try_table_name_to_struct_name("test_table", true));
    assert_eq!(None, try_table_name_to_struct_name("", true));
}

#[test]
fn table_name_and_struct_name_round_trip() {
    for name in ["SomeStructName", "FooStruct", "UuidStruct", "A"] {
        let table = struct_name_to_db_table_name(name, true);
        assert_eq!(name, table_name_to_struct_name(&table, true));
    }
}

#[test]
fn snake_case_to_upper_camel_case_joins_words() {
    assert_eq!("SomeStructName", snake_case_to_upper_camel_case("some_struct_name"));
    assert_eq!(Some("Name".to_string()), try_snake_case_to_upper_camel_case("name"));
    assert_eq!(None, try_snake_case_to_upper_camel_case(""));
}

#[test]
fn capitalize_letter_after_symbol_at_the_end() {
    assert_eq!(Some("ab".to_string()), try_capitalize_letter_after_symbol("ab", '_'));
    assert_eq!(Some("aB".to_string()), try_capitalize_letter_after_symbol("a_b", '_'));
}

#[test]
fn ascii_struct_names_round_trip_through_table_names() {
    for name in ["SomeStructName", "ABc", "Some2Name", "AB", "X1y"] {
        let table = struct_name_to_db_table_name(name, true);
        assert_eq!(Some(name.to_string()), try_table_name_to_struct_name(&table, true));
    }
    assert_eq!("a_bc", struct_name_to_db_table_name("ABc", true));
}
