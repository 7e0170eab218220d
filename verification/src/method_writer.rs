//! What the code generator writes for an annotated struct: the table
//! information it reads from the struct's fields, and the methods it writes,
//! each with the name the mirror derive gives it and the name a writer gives
//! it.
use vstd::prelude::*;

use crate::capitalizing::{db_table_name, struct_name_to_db_table_name};
use crate::materialized_view::MaterializedViewInf;
use crate::query_writer::{
    pk_struct_str, texts, update_single_column, updatable_columns_enum, DELETE_UNIQUE, INSERT,
    INSERT_USING_TTL, SELECT_ALL, SELECT_ALL_COUNT, SELECT_UNIQUE, TRUNCATE,
    UPDATE_MULTIPLE_COLUMNS, UPDATE_OPTIONALS, UPDATE_SINGLE_COLUMN,
    UPDATE_SINGLE_COLUMN_DYNAMIC,
};

verus! {

/// A field of an annotated struct, with the annotations the derive reads.
pub struct Field {
    pub name: String,
    /// Annotated `#[partition_key]`
    pub partition_key: bool,
    /// Annotated `#[clustering_key]`
    pub clustering_key: bool,
    /// Annotated `#[json_mapped]`
    pub json_mapped: bool,
}

/// The annotations of a field.
#[derive(PartialEq, Eq, Debug, Clone, Copy, Structural)]
pub enum Annotation {
    PartitionKey,
    ClusteringKey,
    JsonMapped,
}

/// Whether a field carries an annotation.
pub open spec fn annotated(f: Field, a: Annotation) -> bool {
    match a {
        Annotation::PartitionKey => f.partition_key,
        Annotation::ClusteringKey => f.clustering_key,
        Annotation::JsonMapped => f.json_mapped,
    }
}

/// Whether a field is part of the primary key.
pub open spec fn in_primary_key(f: Field) -> bool {
    f.partition_key || f.clustering_key
}

/// The names of the first `n` fields that carry the annotation, in order.
pub open spec fn annotated_prefix(fields: Seq<Field>, a: Annotation, n: int) -> Seq<Seq<char>>
    decreases n,
{
    if n <= 0 {
        Seq::empty()
    } else {
        let rest = annotated_prefix(fields, a, n - 1);
        if annotated(fields[n - 1], a) {
            rest.push(fields[n - 1].name@)
        } else {
            rest
        }
    }
}

/// The names of the fields that carry the annotation, in order.
pub open spec fn annotated_names(fields: Seq<Field>, a: Annotation) -> Seq<Seq<char>> {
    annotated_prefix(fields, a, fields.len() as int)
}

/// The names of the first `n` fields that are not part of the primary key.
pub open spec fn regular_prefix(fields: Seq<Field>, n: int) -> Seq<Seq<char>>
    decreases n,
{
    if n <= 0 {
        Seq::empty()
    } else {
        let rest = regular_prefix(fields, n - 1);
        if in_primary_key(fields[n - 1]) {
            rest
        } else {
            rest.push(fields[n - 1].name@)
        }
    }
}

/// The names of the fields that are not part of the primary key, in order.
pub open spec fn regular_names(fields: Seq<Field>) -> Seq<Seq<char>> {
    regular_prefix(fields, fields.len() as int)
}

/// The names of all the fields, in order.
pub open spec fn field_names(fields: Seq<Field>) -> Seq<Seq<char>> {
    fields.map_values(|f: Field| f.name@)
}

/// The primary key columns: the partition key columns, then the clustering
/// columns.
pub open spec fn pk_names(fields: Seq<Field>) -> Seq<Seq<char>> {
    annotated_names(fields, Annotation::PartitionKey) + annotated_names(
        fields,
        Annotation::ClusteringKey,
    )
}

/// A struct may have clustering columns only where it has a partition key.
pub open spec fn valid_key(fields: Seq<Field>) -> bool {
    annotated_names(fields, Annotation::PartitionKey).len() == 0 ==> annotated_names(
        fields,
        Annotation::ClusteringKey,
    ).len() == 0
}

/// The names of the fields that carry the annotation, in order.
pub fn names_annotated(fields: &Vec<Field>, a: Annotation) -> (r: Vec<String>)
    ensures
        texts(r@) == annotated_names(fields@, a),
{
    let mut r: Vec<String> = Vec::new();
    let mut i: usize = 0;
    while i < fields.len()
        invariant
            i <= fields.len(),
            texts(r@) == annotated_prefix(fields@, a, i as int),
        decreases fields.len() - i,
    {
        let f = &fields[i];
        let carries = match a {
            Annotation::PartitionKey => f.partition_key,
            Annotation::ClusteringKey => f.clustering_key,
            Annotation::JsonMapped => f.json_mapped,
        };
        if carries {
            let ghost before = r@;
            r.push(f.name.as_str().to_owned());
            assert(texts(r@) =~= texts(before).push(fields@[i as int].name@));
        }
        i = i + 1;
    }
    r
}

/// The names of the fields that are not part of the primary key, in order.
pub fn names_regular(fields: &Vec<Field>) -> (r: Vec<String>)
    ensures
        texts(r@) == regular_names(fields@),
{
    let mut r: Vec<String> = Vec::new();
    let mut i: usize = 0;
    while i < fields.len()
        invariant
            i <= fields.len(),
            texts(r@) == regular_prefix(fields@, i as int),
        decreases fields.len() - i,
    {
        let f = &fields[i];
        if !(f.partition_key || f.clustering_key) {
            let ghost before = r@;
            r.push(f.name.as_str().to_owned());
            assert(texts(r@) =~= texts(before).push(fields@[i as int].name@));
        }
        i = i + 1;
    }
    r
}

/// The names of all the fields, in order.
pub fn names_of_fields(fields: &Vec<Field>) -> (r: Vec<String>)
    ensures
        texts(r@) == field_names(fields@),
{
    let mut r: Vec<String> = Vec::new();
    let mut i: usize = 0;
    while i < fields.len()
        invariant
            i <= fields.len(),
            texts(r@) =~= field_names(fields@).take(i as int),
        decreases fields.len() - i,
    {
        let ghost before = r@;
        r.push(fields[i].name.as_str().to_owned());
        assert(texts(r@) =~= texts(before).push(fields@[i as int].name@));
        i = i + 1;
    }
    r
}

/// The partition key, clustering and json mapped fields of a struct, each
/// in the order of the struct.
pub fn read_attributes(fields: &Vec<Field>) -> (r: (Vec<String>, Vec<String>, Vec<String>))
    requires
        valid_key(fields@),
    ensures
        texts(r.0@) == annotated_names(fields@, Annotation::PartitionKey),
        texts(r.1@) == annotated_names(fields@, Annotation::ClusteringKey),
        texts(r.2@) == annotated_names(fields@, Annotation::JsonMapped),
{
    let partition = names_annotated(fields, Annotation::PartitionKey);
    let clustering = names_annotated(fields, Annotation::ClusteringKey);
    let json_mapped = names_annotated(fields, Annotation::JsonMapped);
    (partition, clustering, json_mapped)
}

/// What the code generator knows of an annotated struct.
pub struct Inf {
    pub name: String,
    pub partition_fields: Vec<String>,
    pub clustering_fields: Vec<String>,
    pub json_mapped_fields: Vec<String>,
    /// The partition key fields, then the clustering fields
    pub pk_fields: Vec<String>,
    pub non_pk_fields: Vec<String>,
    pub fields: Vec<String>,
    pub table_name: String,
    pub pk_struct: String,
    pub pk_parameter: String,
    pub updateable_columns_enum: String,
    pub updateable_columns_enum_parameter: String,
    /// Filled where this table is a materialized view, with its base table
    pub materialized_view: Option<MaterializedViewInf>,
}

/// The table information of a struct that has the given name and fields;
/// `camel_case_to_snake_case` says whether table names are snake cased.
pub fn inf(
    name: &str,
    fields: &Vec<Field>,
    camel_case_to_snake_case: bool,
    materialized_view: Option<MaterializedViewInf>,
) -> (r: Inf)
    requires
        valid_key(fields@),
    ensures
        r.name@ == name@,
        texts(r.partition_fields@) == annotated_names(fields@, Annotation::PartitionKey),
        texts(r.clustering_fields@) == annotated_names(fields@, Annotation::ClusteringKey),
        texts(r.json_mapped_fields@) == annotated_names(fields@, Annotation::JsonMapped),
        texts(r.pk_fields@) == pk_names(fields@),
        texts(r.non_pk_fields@) == regular_names(fields@),
        texts(r.fields@) == field_names(fields@),
        r.table_name@ == db_table_name(name, camel_case_to_snake_case),
        r.pk_struct@ == name@ + "PrimaryKey"@,
        r.pk_parameter@ == "primary_key"@,
        r.updateable_columns_enum@ == name@ + "UpdatableColumns"@,
        r.updateable_columns_enum_parameter@ == "dyn_column"@,
        r.materialized_view == materialized_view,
{
    let (partition_fields, clustering_fields, json_mapped_fields) = read_attributes(fields);
    let mut pk_fields: Vec<String> = Vec::new();
    let mut i: usize = 0;
    while i < partition_fields.len()
        invariant
            i <= partition_fields.len(),
            texts(pk_fields@) =~= texts(partition_fields@).take(i as int),
        decreases partition_fields.len() - i,
    {
        let ghost before = pk_fields@;
        pk_fields.push(partition_fields[i].as_str().to_owned());
        assert(texts(pk_fields@) =~= texts(before).push(partition_fields@[i as int]@));
        i = i + 1;
    }
    let mut j: usize = 0;
    while j < clustering_fields.len()
        invariant
            i == partition_fields.len(),
            j <= clustering_fields.len(),
            texts(pk_fields@) =~= texts(partition_fields@) + texts(clustering_fields@).take(
                j as int,
            ),
        decreases clustering_fields.len() - j,
    {
        let ghost before = pk_fields@;
        pk_fields.push(clustering_fields[j].as_str().to_owned());
        assert(texts(pk_fields@) =~= texts(before).push(clustering_fields@[j as int]@));
        j = j + 1;
    }
    Inf {
        name: name.to_owned(),
        partition_fields,
        clustering_fields,
        json_mapped_fields,
        pk_fields,
        non_pk_fields: names_regular(fields),
        fields: names_of_fields(fields),
        table_name: struct_name_to_db_table_name(name, camel_case_to_snake_case),
        pk_struct: pk_struct_str(name),
        pk_parameter: "primary_key".to_owned(),
        updateable_columns_enum: updatable_columns_enum(name),
        updateable_columns_enum_parameter: "dyn_column".to_owned(),
        materialized_view,
    }
}

/// How an update method chooses the columns it sets.
#[derive(PartialEq, Eq, Debug, Clone, Copy, Structural)]
pub enum Update {
    /// One column, chosen by a value of the enum of updatable columns
    Dynamic,
    /// Several columns, each chosen by a value of the enum of updatable columns
    DynamicVec,
    /// The column at this index among the columns outside the primary key
    SingleColumn(usize),
    /// Each column whose optional value is given
    AllOptional,
}

/// The kind of a written method.
#[derive(PartialEq, Eq, Debug, Clone, Copy, Structural)]
pub enum Crud {
    /// Inserts one row; with a time to live where the flag is set
    InsertUnique(bool),
    UpdateUnique(Update),
    SelectUnique,
    SelectAll,
    SelectAllCount,
    DeleteUnique,
    Truncate,
}

/// The names a writer gives to the methods it writes; the name of a method
/// that updates one column is `update_column`, `_` and the column's name.
pub struct MethodNames {
    pub insert: &'static str,
    pub insert_using_ttl: &'static str,
    pub select_unique: &'static str,
    pub select_all: &'static str,
    pub select_all_count: &'static str,
    pub delete_unique: &'static str,
    pub update_optionals: &'static str,
    pub update_column: &'static str,
    pub update_column_dynamic: &'static str,
    pub update_multiple_columns: &'static str,
    pub truncate: &'static str,
}

impl MethodNames {
    /// The names that the mirror derive itself gives.
    pub fn defaults() -> (r: MethodNames)
        ensures
            r.insert@ == INSERT@,
            r.insert_using_ttl@ == INSERT_USING_TTL@,
            r.select_unique@ == SELECT_UNIQUE@,
            r.select_all@ == SELECT_ALL@,
            r.select_all_count@ == SELECT_ALL_COUNT@,
            r.delete_unique@ == DELETE_UNIQUE@,
            r.update_optionals@ == UPDATE_OPTIONALS@,
            r.update_column@ == UPDATE_SINGLE_COLUMN@,
            r.update_column_dynamic@ == UPDATE_SINGLE_COLUMN_DYNAMIC@,
            r.update_multiple_columns@ == UPDATE_MULTIPLE_COLUMNS@,
            r.truncate@ == TRUNCATE@,
    {
        MethodNames {
            insert: INSERT,
            insert_using_ttl: INSERT_USING_TTL,
            select_unique: SELECT_UNIQUE,
            select_all: SELECT_ALL,
            select_all_count: SELECT_ALL_COUNT,
            delete_unique: DELETE_UNIQUE,
            update_optionals: UPDATE_OPTIONALS,
            update_column: UPDATE_SINGLE_COLUMN,
            update_column_dynamic: UPDATE_SINGLE_COLUMN_DYNAMIC,
            update_multiple_columns: UPDATE_MULTIPLE_COLUMNS,
            truncate: TRUNCATE,
        }
    }

    /// The name a writer gives to the method that updates one column.
    pub fn fn_name_update_column(&self, column: &str) -> (r: String)
        ensures
            r@ == self.update_column@ + "_"@ + column@,
    {
        let mut r = self.update_column.to_owned();
        r.append("_");
        r.append(column);
        r
    }
}

/// A method that the code generator writes.
pub struct PlannedMethod {
    /// The name the mirror derive gives to the method
    pub db_mirror_fn_name: String,
    /// The name the writer gives to the method
    pub custom_fn_name: String,
    pub crud: Crud,
}

/// The model of a written method: its two names and its kind.
pub open spec fn method_model(m: PlannedMethod) -> (Seq<char>, Seq<char>, Crud) {
    (m.db_mirror_fn_name@, m.custom_fn_name@, m.crud)
}

/// The models of a list of written methods.
pub open spec fn method_models(v: Seq<PlannedMethod>) -> Seq<(Seq<char>, Seq<char>, Crud)> {
    v.map_values(|m: PlannedMethod| method_model(m))
}

/// The select methods, written for every table.
pub open spec fn select_methods(n: MethodNames) -> Seq<(Seq<char>, Seq<char>, Crud)> {
    seq![
        (SELECT_UNIQUE@, n.select_unique@, Crud::SelectUnique),
        (SELECT_ALL@, n.select_all@, Crud::SelectAll),
        (SELECT_ALL_COUNT@, n.select_all_count@, Crud::SelectAllCount),
    ]
}

/// The method that updates the `i`th column outside the primary key.
pub open spec fn single_column_method(n: MethodNames, non_pk: Seq<Seq<char>>, i: int) -> (
    Seq<char>,
    Seq<char>,
    Crud,
) {
    (
        UPDATE_SINGLE_COLUMN@ + "_"@ + non_pk[i],
        n.update_column@ + "_"@ + non_pk[i],
        Crud::UpdateUnique(Update::SingleColumn(i as usize)),
    )
}

/// The update methods: the one that takes a value of the enum of updatable
/// columns, and, where the table has columns outside its primary key, the
/// one that takes optional values, the one that takes several values of
/// the enum, and one per column.
pub open spec fn update_methods(n: MethodNames, non_pk: Seq<Seq<char>>) -> Seq<
    (Seq<char>, Seq<char>, Crud),
> {
    seq![
        (
            UPDATE_SINGLE_COLUMN_DYNAMIC@,
            n.update_column_dynamic@,
            Crud::UpdateUnique(Update::Dynamic),
        ),
    ] + if non_pk.len() == 0 {
        Seq::empty()
    } else {
        seq![
            (UPDATE_OPTIONALS@, n.update_optionals@, Crud::UpdateUnique(Update::AllOptional)),
            (
                UPDATE_MULTIPLE_COLUMNS@,
                n.update_multiple_columns@,
                Crud::UpdateUnique(Update::DynamicVec),
            ),
        ] + Seq::new(non_pk.len(), |i: int| single_column_method(n, non_pk, i))
    }
}

/// The methods that change rows, written for tables that are not
/// materialized views.
pub open spec fn base_table_methods(n: MethodNames, non_pk: Seq<Seq<char>>) -> Seq<
    (Seq<char>, Seq<char>, Crud),
> {
    seq![
        (INSERT@, n.insert@, Crud::InsertUnique(false)),
        (INSERT_USING_TTL@, n.insert_using_ttl@, Crud::InsertUnique(true)),
    ] + update_methods(n, non_pk) + seq![
        (DELETE_UNIQUE@, n.delete_unique@, Crud::DeleteUnique),
        (TRUNCATE@, n.truncate@, Crud::Truncate),
    ]
}

/// Every method written for a table: the select methods, then, unless the
/// table is a materialized view, the methods that change rows.
pub open spec fn planned_methods(
    n: MethodNames,
    non_pk: Seq<Seq<char>>,
    is_materialized_view: bool,
) -> Seq<(Seq<char>, Seq<char>, Crud)> {
    select_methods(n) + if is_materialized_view {
        Seq::empty()
    } else {
        base_table_methods(n, non_pk)
    }
}

fn planned(db_mirror_fn_name: &str, custom_fn_name: &str, crud: Crud) -> (r: PlannedMethod)
    ensures
        method_model(r) == (db_mirror_fn_name@, custom_fn_name@, crud),
{
    PlannedMethod {
        db_mirror_fn_name: db_mirror_fn_name.to_owned(),
        custom_fn_name: custom_fn_name.to_owned(),
        crud,
    }
}

fn push_method(v: &mut Vec<PlannedMethod>, m: PlannedMethod)
    ensures
        method_models(final(v)@) == method_models(old(v)@).push(method_model(m)),
{
    v.push(m);
    assert(method_models(v@) =~= method_models(old(v)@).push(method_model(m)));
}

/// Every method that the code generator writes for the table, with the
/// names that `names` gives.
pub fn plan_methods(inf: &Inf, names: &MethodNames) -> (r: Vec<PlannedMethod>)
    ensures
        method_models(r@) == planned_methods(
            *names,
            texts(inf.non_pk_fields@),
            inf.materialized_view is Some,
        ),
{
    let ghost n = *names;
    let ghost non_pk = texts(inf.non_pk_fields@);
    let mut r: Vec<PlannedMethod> = Vec::new();
    push_method(&mut r, planned(SELECT_UNIQUE, names.select_unique, Crud::SelectUnique));
    push_method(&mut r, planned(SELECT_ALL, names.select_all, Crud::SelectAll));
    push_method(&mut r, planned(SELECT_ALL_COUNT, names.select_all_count, Crud::SelectAllCount));
    assert(method_models(r@) =~= select_methods(n));
    if inf.materialized_view.is_some() {
        assert(method_models(r@) =~= planned_methods(n, non_pk, true));
        return r;
    }
    push_method(&mut r, planned(INSERT, names.insert, Crud::InsertUnique(false)));
    push_method(&mut r, planned(INSERT_USING_TTL, names.insert_using_ttl, Crud::InsertUnique(true)));
    push_method(
        &mut r,
        planned(
            UPDATE_SINGLE_COLUMN_DYNAMIC,
            names.update_column_dynamic,
            Crud::UpdateUnique(Update::Dynamic),
        ),
    );
    let ghost head = method_models(r@);
    if inf.non_pk_fields.len() > 0 {
        push_method(
            &mut r,
            planned(UPDATE_OPTIONALS, names.update_optionals, Crud::UpdateUnique(Update::AllOptional)),
        );
        push_method(
            &mut r,
            planned(
                UPDATE_MULTIPLE_COLUMNS,
                names.update_multiple_columns,
                Crud::UpdateUnique(Update::DynamicVec),
            ),
        );
        let ghost with_multiple = method_models(r@);
        let mut i: usize = 0;
        while i < inf.non_pk_fields.len()
            invariant
                i <= inf.non_pk_fields.len(),
                non_pk == texts(inf.non_pk_fields@),
                n == *names,
                method_models(r@) =~= with_multiple + Seq::new(
                    i as nat,
                    |k: int| single_column_method(n, non_pk, k),
                ),
            decreases inf.non_pk_fields.len() - i,
        {
            let column = inf.non_pk_fields[i].as_str();
            let db_name = update_single_column(column);
            let custom_name = names.fn_name_update_column(column);
            assert(db_name@ == single_column_method(n, non_pk, i as int).0);
            push_method(
                &mut r,
                planned(
                    db_name.as_str(),
                    custom_name.as_str(),
                    Crud::UpdateUnique(Update::SingleColumn(i)),
                ),
            );
            i = i + 1;
        }
    }
    assert(method_models(r@) =~= select_methods(n) + seq![
        (INSERT@, n.insert@, Crud::InsertUnique(false)),
        (INSERT_USING_TTL@, n.insert_using_ttl@, Crud::InsertUnique(true)),
    ] + update_methods(n, non_pk));
    push_method(&mut r, planned(DELETE_UNIQUE, names.delete_unique, Crud::DeleteUnique));
    push_method(&mut r, planned(TRUNCATE, names.truncate, Crud::Truncate));
    assert(method_models(r@) =~= planned_methods(n, non_pk, false));
    r
}

} // verus!
