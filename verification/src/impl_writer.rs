//! A writer that gives the written methods names of its own, and checks
//! that the code generator hands every method over with the names that
//! belong to it.
use vstd::prelude::*;

use crate::method_writer::{
    base_table_methods, method_model, planned_methods, select_methods, single_column_method,
    update_methods, Crud, MethodNames, PlannedMethod, Update,
};
use crate::query_writer;
use crate::text::{starts_with, str_eq, str_starts_with};

verus! {

pub const INSERT: &'static str = "c_insert_unique";

pub const INSERT_USING_TTL: &'static str = "c_insert_unique_using_ttl";

pub const SELECT_UNIQUE: &'static str = "c_select_unique";

pub const SELECT_ALL: &'static str = "c_select_all";

pub const SELECT_ALL_COUNT: &'static str = "c_select_all_count";

pub const DELETE_UNIQUE: &'static str = "c_delete_unique";

pub const UPDATE_OPTIONALS: &'static str = "c_update_opt";

pub const UPDATE_COLUMN: &'static str = "c_update";

pub const TRUNCATE: &'static str = "c_truncate";

/// A writer whose methods are named `c_...`.
pub struct ImplWriter;

/// Whether a method carries the names that [`ImplWriter`] expects for its
/// kind: the mirror derive's name for the kind, and the writer's own.
pub open spec fn names_expected(m: (Seq<char>, Seq<char>, Crud)) -> bool {
    let (db, custom, crud) = m;
    match crud {
        Crud::UpdateUnique(update) => match update {
            Update::SingleColumn(_) => starts_with(db, query_writer::UPDATE_SINGLE_COLUMN@)
                && starts_with(custom, UPDATE_COLUMN@),
            Update::AllOptional => db == query_writer::UPDATE_OPTIONALS@ && custom
                == UPDATE_OPTIONALS@,
            _ => true,
        },
        Crud::InsertUnique(using_ttl) => if using_ttl {
            db == query_writer::INSERT_USING_TTL@ && custom == INSERT_USING_TTL@
        } else {
            db == query_writer::INSERT@ && custom == INSERT@
        },
        Crud::SelectUnique => db == query_writer::SELECT_UNIQUE@ && custom == SELECT_UNIQUE@,
        Crud::DeleteUnique => db == query_writer::DELETE_UNIQUE@ && custom == DELETE_UNIQUE@,
        Crud::SelectAll => db == query_writer::SELECT_ALL@ && custom == SELECT_ALL@,
        Crud::SelectAllCount => db == query_writer::SELECT_ALL_COUNT@ && custom
            == SELECT_ALL_COUNT@,
        Crud::Truncate => db == query_writer::TRUNCATE@ && custom == TRUNCATE@,
    }
}

/// Whether the writer writes a method of this kind: it writes none for the
/// updates that take values of the enum of updatable columns.
pub open spec fn writes_method(crud: Crud) -> bool {
    !(crud == Crud::UpdateUnique(Update::Dynamic) || crud == Crud::UpdateUnique(
        Update::DynamicVec,
    ))
}

/// Whether `n` holds the names that [`ImplWriter`] gives.
pub open spec fn impl_writer_names(n: MethodNames) -> bool {
    &&& n.insert@ == INSERT@
    &&& n.insert_using_ttl@ == INSERT_USING_TTL@
    &&& n.select_unique@ == SELECT_UNIQUE@
    &&& n.select_all@ == SELECT_ALL@
    &&& n.select_all_count@ == SELECT_ALL_COUNT@
    &&& n.delete_unique@ == DELETE_UNIQUE@
    &&& n.update_optionals@ == UPDATE_OPTIONALS@
    &&& n.update_column@ == UPDATE_COLUMN@
    &&& n.update_column_dynamic@ == query_writer::UPDATE_SINGLE_COLUMN_DYNAMIC@
    &&& n.update_multiple_columns@ == query_writer::UPDATE_MULTIPLE_COLUMNS@
    &&& n.truncate@ == TRUNCATE@
}

/// Every method that the code generator writes for a table, with the names
/// of [`ImplWriter`], reaches the writer with the names the writer expects:
/// its checks hold for every table, with or without columns outside the
/// primary key, materialized view or not.
pub proof fn lemma_planned_names_expected(
    n: MethodNames,
    non_pk: Seq<Seq<char>>,
    is_materialized_view: bool,
    k: int,
)
    requires
        impl_writer_names(n),
        0 <= k < planned_methods(n, non_pk, is_materialized_view).len(),
    ensures
        names_expected(planned_methods(n, non_pk, is_materialized_view)[k]),
{
    let all = planned_methods(n, non_pk, is_materialized_view);
    let sel = select_methods(n);
    if k < 3 {
        assert(all[k] == sel[k]);
    } else {
        let base = base_table_methods(n, non_pk);
        assert(all[k] == base[k - 3]);
        let ins: Seq<(Seq<char>, Seq<char>, Crud)> = seq![
            (query_writer::INSERT@, n.insert@, Crud::InsertUnique(false)),
            (query_writer::INSERT_USING_TTL@, n.insert_using_ttl@, Crud::InsertUnique(true)),
        ];
        let upd = update_methods(n, non_pk);
        let j = k - 3;
        if j < 2 {
            assert(base[j] == ins[j]);
        } else if j < 2 + upd.len() {
            assert(base[j] == upd[j - 2]);
            let u = j - 2;
            if u >= 3 {
                let c = u - 3;
                assert(upd[u] == single_column_method(n, non_pk, c));
                let db = query_writer::UPDATE_SINGLE_COLUMN@ + "_"@ + non_pk[c];
                let custom = n.update_column@ + "_"@ + non_pk[c];
                assert(db.take(query_writer::UPDATE_SINGLE_COLUMN@.len() as int)
                    =~= query_writer::UPDATE_SINGLE_COLUMN@);
                assert(custom.take(UPDATE_COLUMN@.len() as int) =~= UPDATE_COLUMN@);
            }
        }
    }
}

impl ImplWriter {
    pub fn fn_name_insert(&self) -> (r: &'static str)
        ensures
            r@ == INSERT@,
    {
        INSERT
    }

    pub fn fn_name_insert_using_ttl(&self) -> (r: &'static str)
        ensures
            r@ == INSERT_USING_TTL@,
    {
        INSERT_USING_TTL
    }

    pub fn fn_name_select_unique(&self) -> (r: &'static str)
        ensures
            r@ == SELECT_UNIQUE@,
    {
        SELECT_UNIQUE
    }

    pub fn fn_name_delete_unique(&self) -> (r: &'static str)
        ensures
            r@ == DELETE_UNIQUE@,
    {
        DELETE_UNIQUE
    }

    pub fn fn_name_update_optionals(&self) -> (r: &'static str)
        ensures
            r@ == UPDATE_OPTIONALS@,
    {
        UPDATE_OPTIONALS
    }

    pub fn fn_name_update_column(&self, column: &str) -> (r: String)
        ensures
            r@ == UPDATE_COLUMN@ + query_writer::COLUMN_SEPARATOR@ + column@,
    {
        let mut r = UPDATE_COLUMN.to_owned();
        r.append(query_writer::COLUMN_SEPARATOR);
        r.append(column);
        r
    }

    pub fn fn_name_select_all(&self) -> (r: &'static str)
        ensures
            r@ == SELECT_ALL@,
    {
        SELECT_ALL
    }

    pub fn fn_name_select_all_count(&self) -> (r: &'static str)
        ensures
            r@ == SELECT_ALL_COUNT@,
    {
        SELECT_ALL_COUNT
    }

    pub fn fn_name_truncate(&self) -> (r: &'static str)
        ensures
            r@ == TRUNCATE@,
    {
        TRUNCATE
    }

    /// The names this writer gives; it keeps the mirror derive's names for
    /// the updates that take values of the enum of updatable columns.
    pub fn method_names(&self) -> (r: MethodNames)
        ensures
            r.insert@ == INSERT@,
            r.insert_using_ttl@ == INSERT_USING_TTL@,
            r.select_unique@ == SELECT_UNIQUE@,
            r.select_all@ == SELECT_ALL@,
            r.select_all_count@ == SELECT_ALL_COUNT@,
            r.delete_unique@ == DELETE_UNIQUE@,
            r.update_optionals@ == UPDATE_OPTIONALS@,
            r.update_column@ == UPDATE_COLUMN@,
            r.update_column_dynamic@ == query_writer::UPDATE_SINGLE_COLUMN_DYNAMIC@,
            r.update_multiple_columns@ == query_writer::UPDATE_MULTIPLE_COLUMNS@,
            r.truncate@ == TRUNCATE@,
    {
        MethodNames {
            insert: self.fn_name_insert(),
            insert_using_ttl: self.fn_name_insert_using_ttl(),
            select_unique: self.fn_name_select_unique(),
            select_all: self.fn_name_select_all(),
            select_all_count: self.fn_name_select_all_count(),
            delete_unique: self.fn_name_delete_unique(),
            update_optionals: self.fn_name_update_optionals(),
            update_column: UPDATE_COLUMN,
            update_column_dynamic: query_writer::UPDATE_SINGLE_COLUMN_DYNAMIC,
            update_multiple_columns: query_writer::UPDATE_MULTIPLE_COLUMNS,
            truncate: self.fn_name_truncate(),
        }
    }

    /// Whether the method carries the names this writer expects.
    pub fn check(&self, method: &PlannedMethod) -> (b: bool)
        ensures
            b == names_expected(method_model(*method)),
    {
        let db = method.db_mirror_fn_name.as_str();
        let custom = method.custom_fn_name.as_str();
        match method.crud {
            Crud::UpdateUnique(update) => match update {
                Update::SingleColumn(_) => str_starts_with(db, query_writer::UPDATE_SINGLE_COLUMN)
                    && str_starts_with(custom, UPDATE_COLUMN),
                Update::AllOptional => str_eq(db, query_writer::UPDATE_OPTIONALS) && str_eq(
                    custom,
                    UPDATE_OPTIONALS,
                ),
                _ => true,
            },
            Crud::InsertUnique(using_ttl) => if using_ttl {
                str_eq(db, query_writer::INSERT_USING_TTL) && str_eq(custom, INSERT_USING_TTL)
            } else {
                str_eq(db, query_writer::INSERT) && str_eq(custom, INSERT)
            },
            Crud::SelectUnique => str_eq(db, query_writer::SELECT_UNIQUE) && str_eq(
                custom,
                SELECT_UNIQUE,
            ),
            Crud::DeleteUnique => str_eq(db, query_writer::DELETE_UNIQUE) && str_eq(
                custom,
                DELETE_UNIQUE,
            ),
            Crud::SelectAll => str_eq(db, query_writer::SELECT_ALL) && str_eq(custom, SELECT_ALL),
            Crud::SelectAllCount => str_eq(db, query_writer::SELECT_ALL_COUNT) && str_eq(
                custom,
                SELECT_ALL_COUNT,
            ),
            Crud::Truncate => str_eq(db, query_writer::TRUNCATE) && str_eq(custom, TRUNCATE),
        }
    }

    /// The name of the (empty) method this writer adds to the struct for a
    /// written method: the writer's own name, or none for the updates that
    /// take values of the enum of updatable columns.
    pub fn write(&self, method: &PlannedMethod) -> (r: Option<String>)
        requires
            names_expected(method_model(*method)),
        ensures
            writes_method(method.crud) ==> (r matches Some(n) && n@ == method.custom_fn_name@),
            !writes_method(method.crud) ==> r is None,
    {
        match method.crud {
            Crud::UpdateUnique(Update::Dynamic) | Crud::UpdateUnique(Update::DynamicVec) => None,
            _ => Some(method.custom_fn_name.as_str().to_owned()),
        }
    }
}

} // verus!
