//! The column types that queries may bind values to, and their Rust types.
use vstd::prelude::*;

use crate::text::{chars_of, same_chars};

verus! {

/// Supported data types
/// Feel free to add more
#[derive(Debug, PartialEq, Eq, Clone, Copy, Structural)]
pub enum CassandraDataType {
    TinyInt,
    SmallInt,
    Int,
    BigInt,
    Text,
    Ascii,
    Varchar,
    Boolean,
    Time,
    Timestamp,
    Float,
    Double,
    Uuid,
    Counter,
}

/// The data type that a type name of the database stands for; `None` for a
/// name that is not supported.
pub open spec fn data_type_of(name: Seq<char>) -> Option<CassandraDataType> {
    if name == "tinyint"@ {
        Some(CassandraDataType::TinyInt)
    } else if name == "smallint"@ {
        Some(CassandraDataType::SmallInt)
    } else if name == "int"@ {
        Some(CassandraDataType::Int)
    } else if name == "bigint"@ {
        Some(CassandraDataType::BigInt)
    } else if name == "text"@ {
        Some(CassandraDataType::Text)
    } else if name == "ascii"@ {
        Some(CassandraDataType::Ascii)
    } else if name == "varchar"@ {
        Some(CassandraDataType::Varchar)
    } else if name == "boolean"@ {
        Some(CassandraDataType::Boolean)
    } else if name == "time"@ {
        Some(CassandraDataType::Time)
    } else if name == "timestamp"@ {
        Some(CassandraDataType::Timestamp)
    } else if name == "float"@ {
        Some(CassandraDataType::Float)
    } else if name == "double"@ {
        Some(CassandraDataType::Double)
    } else if name == "uuid"@ {
        Some(CassandraDataType::Uuid)
    } else if name == "counter"@ {
        Some(CassandraDataType::Counter)
    } else {
        None
    }
}

/// The name under which the database reports a data type.
pub open spec fn cql_type_name(t: CassandraDataType) -> Seq<char> {
    match t {
        CassandraDataType::TinyInt => "tinyint"@,
        CassandraDataType::SmallInt => "smallint"@,
        CassandraDataType::Int => "int"@,
        CassandraDataType::BigInt => "bigint"@,
        CassandraDataType::Text => "text"@,
        CassandraDataType::Ascii => "ascii"@,
        CassandraDataType::Varchar => "varchar"@,
        CassandraDataType::Boolean => "boolean"@,
        CassandraDataType::Time => "time"@,
        CassandraDataType::Timestamp => "timestamp"@,
        CassandraDataType::Float => "float"@,
        CassandraDataType::Double => "double"@,
        CassandraDataType::Uuid => "uuid"@,
        CassandraDataType::Counter => "counter"@,
    }
}

/// A type name read from the database stands for the data type of that
/// name and for no other: every data type is read from its own name, and a
/// name that is read as a data type is that type's name. So two different
/// names never stand for the same data type.
pub proof fn lemma_type_names(name: Seq<char>, other: Seq<char>, t: CassandraDataType)
    ensures
        data_type_of(cql_type_name(t)) == Some(t),
        data_type_of(name) == Some(t) ==> name == cql_type_name(t),
        data_type_of(name) is Some && data_type_of(name) == data_type_of(other) ==> name == other,
{
    reveal_strlit("tinyint");
    reveal_strlit("smallint");
    reveal_strlit("int");
    reveal_strlit("bigint");
    reveal_strlit("text");
    reveal_strlit("ascii");
    reveal_strlit("varchar");
    reveal_strlit("boolean");
    reveal_strlit("time");
    reveal_strlit("timestamp");
    reveal_strlit("float");
    reveal_strlit("double");
    reveal_strlit("uuid");
    reveal_strlit("counter");
    match t {
        CassandraDataType::TinyInt => {

        },
        CassandraDataType::SmallInt => {
            assert("smallint"@.len() != "tinyint"@.len());
        },
        CassandraDataType::Int => {
            assert("int"@.len() != "tinyint"@.len());
            assert("int"@.len() != "smallint"@.len());
        },
        CassandraDataType::BigInt => {
            assert("bigint"@.len() != "tinyint"@.len());
            assert("bigint"@.len() != "smallint"@.len());
            assert("bigint"@.len() != "int"@.len());
        },
        CassandraDataType::Text => {
            assert("text"@.len() != "tinyint"@.len());
            assert("text"@.len() != "smallint"@.len());
            assert("text"@.len() != "int"@.len());
            assert("text"@.len() != "bigint"@.len());
        },
        CassandraDataType::Ascii => {
            assert("ascii"@.len() != "tinyint"@.len());
            assert("ascii"@.len() != "smallint"@.len());
            assert("ascii"@.len() != "int"@.len());
            assert("ascii"@.len() != "bigint"@.len());
            assert("ascii"@.len() != "text"@.len());
        },
        CassandraDataType::Varchar => {
            assert("varchar"@[0] != "tinyint"@[0]);
            assert("varchar"@.len() != "smallint"@.len());
            assert("varchar"@.len() != "int"@.len());
            assert("varchar"@.len() != "bigint"@.len());
            assert("varchar"@.len() != "text"@.len());
            assert("varchar"@.len() != "ascii"@.len());
        },
        CassandraDataType::Boolean => {
            assert("boolean"@[0] != "tinyint"@[0]);
            assert("boolean"@.len() != "smallint"@.len());
            assert("boolean"@.len() != "int"@.len());
            assert("boolean"@.len() != "bigint"@.len());
            assert("boolean"@.len() != "text"@.len());
            assert("boolean"@.len() != "ascii"@.len());
            assert("boolean"@[0] != "varchar"@[0]);
        },
        CassandraDataType::Time => {
            assert("time"@.len() != "tinyint"@.len());
            assert("time"@.len() != "smallint"@.len());
            assert("time"@.len() != "int"@.len());
            assert("time"@.len() != "bigint"@.len());
            assert("time"@[1] != "text"@[1]);
            assert("time"@.len() != "ascii"@.len());
            assert("time"@.len() != "varchar"@.len());
            assert("time"@.len() != "boolean"@.len());
        },
        CassandraDataType::Timestamp => {
            assert("timestamp"@.len() != "tinyint"@.len());
            assert("timestamp"@.len() != "smallint"@.len());
            assert("timestamp"@.len() != "int"@.len());
            assert("timestamp"@.len() != "bigint"@.len());
            assert("timestamp"@.len() != "text"@.len());
            assert("timestamp"@.len() != "ascii"@.len());
            assert("timestamp"@.len() != "varchar"@.len());
            assert("timestamp"@.len() != "boolean"@.len());
            assert("timestamp"@.len() != "time"@.len());
        },
        CassandraDataType::Float => {
            assert("float"@.len() != "tinyint"@.len());
            assert("float"@.len() != "smallint"@.len());
            assert("float"@.len() != "int"@.len());
            assert("float"@.len() != "bigint"@.len());
            assert("float"@.len() != "text"@.len());
            assert("float"@[0] != "ascii"@[0]);
            assert("float"@.len() != "varchar"@.len());
            assert("float"@.len() != "boolean"@.len());
            assert("float"@.len() != "time"@.len());
            assert("float"@.len() != "timestamp"@.len());
        },
        CassandraDataType::Double => {
            assert("double"@.len() != "tinyint"@.len());
            assert("double"@.len() != "smallint"@.len());
            assert("double"@.len() != "int"@.len());
            assert("double"@[0] != "bigint"@[0]);
            assert("double"@.len() != "text"@.len());
            assert("double"@.len() != "ascii"@.len());
            assert("double"@.len() != "varchar"@.len());
            assert("double"@.len() != "boolean"@.len());
            assert("double"@.len() != "time"@.len());
            assert("double"@.len() != "timestamp"@.len());
            assert("double"@.len() != "float"@.len());
        },
        CassandraDataType::Uuid => {
            assert("uuid"@.len() != "tinyint"@.len());
            assert("uuid"@.len() != "smallint"@.len());
            assert("uuid"@.len() != "int"@.len());
            assert("uuid"@.len() != "bigint"@.len());
            assert("uuid"@[0] != "text"@[0]);
            assert("uuid"@.len() != "ascii"@.len());
            assert("uuid"@.len() != "varchar"@.len());
            assert("uuid"@.len() != "boolean"@.len());
            assert("uuid"@[0] != "time"@[0]);
            assert("uuid"@.len() != "timestamp"@.len());
            assert("uuid"@.len() != "float"@.len());
            assert("uuid"@.len() != "double"@.len());
        },
        CassandraDataType::Counter => {
            assert("counter"@[0] != "tinyint"@[0]);
            assert("counter"@.len() != "smallint"@.len());
            assert("counter"@.len() != "int"@.len());
            assert("counter"@.len() != "bigint"@.len());
            assert("counter"@.len() != "text"@.len());
            assert("counter"@.len() != "ascii"@.len());
            assert("counter"@[0] != "varchar"@[0]);
            assert("counter"@[0] != "boolean"@[0]);
            assert("counter"@.len() != "time"@.len());
            assert("counter"@.len() != "timestamp"@.len());
            assert("counter"@.len() != "float"@.len());
            assert("counter"@.len() != "double"@.len());
            assert("counter"@.len() != "uuid"@.len());
        },
    }
}

/// The Rust type that holds values of a data type.
pub open spec fn rust_type(t: CassandraDataType) -> Seq<char> {
    match t {
        CassandraDataType::TinyInt => "i8"@,
        CassandraDataType::SmallInt => "i16"@,
        CassandraDataType::Int => "i32"@,
        CassandraDataType::BigInt
        | CassandraDataType::Time
        | CassandraDataType::Timestamp
        | CassandraDataType::Counter => "i64"@,
        CassandraDataType::Text | CassandraDataType::Ascii | CassandraDataType::Varchar => "String"@,
        CassandraDataType::Boolean => "bool"@,
        CassandraDataType::Float => "f32"@,
        CassandraDataType::Double => "f64"@,
        CassandraDataType::Uuid => "uuid::Uuid"@,
    }
}

/// Whether two data types hold their values in the same Rust type: the
/// same type, or both 64-bit integers (bigint, time, timestamp, counter), or
/// both text (text, ascii, varchar).
pub open spec fn same_rust_values(t: CassandraDataType, u: CassandraDataType) -> bool {
    let wide = |x: CassandraDataType|
        x == CassandraDataType::BigInt || x == CassandraDataType::Time || x
            == CassandraDataType::Timestamp || x == CassandraDataType::Counter;
    let textual = |x: CassandraDataType|
        x == CassandraDataType::Text || x == CassandraDataType::Ascii || x
            == CassandraDataType::Varchar;
    t == u || (wide(t) && wide(u)) || (textual(t) && textual(u))
}

/// Two data types have the same Rust type exactly when they hold the same
/// values: no two integer types of different widths, nor a number and a
/// text, share a Rust type.
pub proof fn lemma_rust_types(t: CassandraDataType, u: CassandraDataType)
    ensures
        rust_type(t) == rust_type(u) <==> same_rust_values(t, u),
{
    reveal_strlit("i8");
    reveal_strlit("i16");
    reveal_strlit("i32");
    reveal_strlit("i64");
    reveal_strlit("String");
    reveal_strlit("bool");
    reveal_strlit("f32");
    reveal_strlit("f64");
    reveal_strlit("uuid::Uuid");
    if rust_type(t) == rust_type(u) && !same_rust_values(t, u) {
        let a = rust_type(t);
        let b = rust_type(u);
        assert(a.len() == b.len());
        assert(a[0] == b[0]);
        assert(a.len() > 1 ==> a[1] == b[1]);
        assert(a.len() > 2 ==> a[2] == b[2]);
    }
}

impl CassandraDataType {
    /// The data type that a type name stands for, or `None` for a name that
    /// is not supported.
    pub fn try_new(from: &str) -> (r: Option<Self>)
        ensures
            r == data_type_of(from@),
    {
        let name = chars_of(from);
        if same_chars(&name, &chars_of("tinyint")) {
            Some(CassandraDataType::TinyInt)
        } else if same_chars(&name, &chars_of("smallint")) {
            Some(CassandraDataType::SmallInt)
        } else if same_chars(&name, &chars_of("int")) {
            Some(CassandraDataType::Int)
        } else if same_chars(&name, &chars_of("bigint")) {
            Some(CassandraDataType::BigInt)
        } else if same_chars(&name, &chars_of("text")) {
            Some(CassandraDataType::Text)
        } else if same_chars(&name, &chars_of("ascii")) {
            Some(CassandraDataType::Ascii)
        } else if same_chars(&name, &chars_of("varchar")) {
            Some(CassandraDataType::Varchar)
        } else if same_chars(&name, &chars_of("boolean")) {
            Some(CassandraDataType::Boolean)
        } else if same_chars(&name, &chars_of("time")) {
            Some(CassandraDataType::Time)
        } else if same_chars(&name, &chars_of("timestamp")) {
            Some(CassandraDataType::Timestamp)
        } else if same_chars(&name, &chars_of("float")) {
            Some(CassandraDataType::Float)
        } else if same_chars(&name, &chars_of("double")) {
            Some(CassandraDataType::Double)
        } else if same_chars(&name, &chars_of("uuid")) {
            Some(CassandraDataType::Uuid)
        } else if same_chars(&name, &chars_of("counter")) {
            Some(CassandraDataType::Counter)
        } else {
            None
        }
    }

    /// The data type that a supported type name stands for.
    pub fn new(from: &str) -> (r: Self)
        requires
            data_type_of(from@) is Some,
        ensures
            data_type_of(from@) == Some(r),
    {
        match Self::try_new(from) {
            Some(t) => t,
            None => CassandraDataType::Int,
        }
    }

    /// The Rust type that holds values of this data type.
    pub fn to_ty(&self) -> (r: &'static str)
        ensures
            r@ == rust_type(*self),
    {
        match self {
            CassandraDataType::TinyInt => "i8",
            CassandraDataType::SmallInt => "i16",
            CassandraDataType::Int => "i32",
            CassandraDataType::BigInt
            | CassandraDataType::Time
            | CassandraDataType::Timestamp
            | CassandraDataType::Counter => "i64",
            CassandraDataType::Text | CassandraDataType::Ascii | CassandraDataType::Varchar => {
                "String"
            },
            CassandraDataType::Boolean => "bool",
            CassandraDataType::Float => "f32",
            CassandraDataType::Double => "f64",
            CassandraDataType::Uuid => "uuid::Uuid",
        }
    }
}

} // verus!
