//! What the database says about the columns of a table.
use vstd::prelude::*;

use crate::text::{chars_of, same_chars, str_to_lowercase, unicode_str_to_lowercase};

verus! {

/// The type of the column
#[derive(PartialEq, Eq, Debug, Clone, Copy, Structural)]
pub enum ColumnKind {
    /// Column is part of the partition key
    PartitionKey,
    /// Column is part of the clustering key
    Clustering,
    /// Column is not part of the primary key
    Regular,
}

/// Whether a column of this kind belongs to the primary key.
pub open spec fn part_of_pk(k: ColumnKind) -> bool {
    match k {
        ColumnKind::PartitionKey | ColumnKind::Clustering => true,
        ColumnKind::Regular => false,
    }
}

/// The name under which the database reports a column kind.
pub open spec fn kind_name(k: ColumnKind) -> Seq<char> {
    match k {
        ColumnKind::PartitionKey => "partition_key"@,
        ColumnKind::Regular => "regular"@,
        ColumnKind::Clustering => "clustering"@,
    }
}

/// The column kind that the database reports under `name`; `None` for an
/// unknown name.
pub open spec fn kind_of(name: Seq<char>) -> Option<ColumnKind> {
    if name == "partition_key"@ {
        Some(ColumnKind::PartitionKey)
    } else if name == "regular"@ {
        Some(ColumnKind::Regular)
    } else if name == "clustering"@ {
        Some(ColumnKind::Clustering)
    } else {
        None
    }
}

/// The name that a column kind is written as reads back as that kind.
pub proof fn lemma_kind_name_round_trip(k: ColumnKind)
    ensures
        kind_of(kind_name(k)) == Some(k),
{
    reveal_strlit("partition_key");
    reveal_strlit("regular");
    reveal_strlit("clustering");
    assert("regular"@ != "partition_key"@) by {
        assert("regular"@[0] != "partition_key"@[0]);
    }
    assert("clustering"@ != "partition_key"@) by {
        assert("clustering"@[0] != "partition_key"@[0]);
    }
    assert("clustering"@ != "regular"@) by {
        assert("clustering"@[0] != "regular"@[0]);
    }
}

impl ColumnKind {
    /// Whether a column of this kind belongs to the primary key.
    pub fn is_part_of_pk(&self) -> (b: bool)
        ensures
            b == part_of_pk(*self),
    {
        match self {
            ColumnKind::PartitionKey | ColumnKind::Clustering => true,
            ColumnKind::Regular => false,
        }
    }

    /// The name under which the database reports this kind.
    pub fn to_string(&self) -> (r: String)
        ensures
            r@ == kind_name(*self),
    {
        let column_kind_to_string = match self {
            ColumnKind::PartitionKey => "partition_key",
            ColumnKind::Regular => "regular",
            ColumnKind::Clustering => "clustering",
        };
        column_kind_to_string.to_owned()
    }
}

/// Meta data about a column for a table
#[derive(Debug)]
pub struct Columns {
    /// Name of the column
    pub column_name: String,
    /// Either partition_key, regular or clustering
    pub kind: String,
    /// The position of the column, only relevant for primary key fields.
    /// Regular columns have the value -1, primary key fields >= 0.
    pub position: i32,
    /// The data type of the column
    pub data_type: String,
}

/// The mathematical model of a [`Columns`] entry.
pub ghost struct ColumnsModel {
    pub column_name: Seq<char>,
    pub kind: Seq<char>,
    pub position: i32,
    pub data_type: Seq<char>,
}

impl View for Columns {
    type V = ColumnsModel;

    open spec fn view(&self) -> ColumnsModel {
        ColumnsModel {
            column_name: self.column_name@,
            kind: self.kind@,
            position: self.position,
            data_type: self.data_type@,
        }
    }
}

impl Columns {
    /// The kind of this column, or `None` when the database reports an
    /// unknown kind.
    pub fn try_kind(&self) -> (r: Option<ColumnKind>)
        ensures
            r == kind_of(self.kind@),
    {
        let name = chars_of(self.kind.as_str());
        if same_chars(&name, &chars_of("partition_key")) {
            Some(ColumnKind::PartitionKey)
        } else if same_chars(&name, &chars_of("regular")) {
            Some(ColumnKind::Regular)
        } else if same_chars(&name, &chars_of("clustering")) {
            Some(ColumnKind::Clustering)
        } else {
            None
        }
    }

    /// The kind of this column.
    pub fn kind(&self) -> (r: ColumnKind)
        requires
            kind_of(self.kind@) is Some,
        ensures
            kind_of(self.kind@) == Some(r),
    {
        match self.try_kind() {
            Some(k) => k,
            None => ColumnKind::Regular,
        }
    }
}

/// The query that lists the columns of a table of a keyspace; table names
/// are looked up in lower case.
pub fn columns_query(keyspace: &str, table: &str) -> (r: String)
    ensures
        r@ == "select column_name, clustering_order, kind, position, type as data_type from system_schema.columns where keyspace_name = '"@
            + keyspace@ + "' and table_name = '"@ + unicode_str_to_lowercase(table@) + "'"@,
{
    let mut q = "select column_name, clustering_order, kind, position, type as data_type from system_schema.columns where keyspace_name = '".to_owned();
    q.append(keyspace);
    q.append("' and table_name = '");
    let lower = str_to_lowercase(table);
    q.append(lower.as_str());
    q.append("'");
    q
}

} // verus!
