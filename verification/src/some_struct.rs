//! The row types that the mirror derive writes for an example table with a
//! composite partition key and a composite clustering key.
use vstd::prelude::*;

verus! {

/// A row of the table `some_struct`.
pub struct SomeStruct {
    /// Partition key
    pub id: i32,
    /// Partition key
    pub another_id: i32,
    /// Clustering key
    pub cluster_key: i32,
    /// Clustering key
    pub another_cluster_key: i32,
    /// A column that is not part of the primary key
    pub name: String,
}

/// The primary key of a row of the table `some_struct`.
#[derive(PartialEq, Eq, Debug, Clone, Copy, Structural)]
pub struct SomeStructPrimaryKey {
    pub id: i32,
    pub another_id: i32,
    pub cluster_key: i32,
    pub another_cluster_key: i32,
}

/// The columns of `some_struct` that can be updated, each with its new value.
#[derive(Clone, Debug)]
pub enum SomeStructUpdatableColumns {
    Name(String),
}

/// A value that is stored as JSON in a column.
#[derive(PartialEq, Eq, Debug, Clone, Copy, Structural)]
pub struct SomeSerializedStruct {
    pub id: i32,
}

impl SomeStruct {
    /// The primary key of the row, taking the row.
    pub fn primary_key(self) -> (r: SomeStructPrimaryKey)
        ensures
            r.id == self.id,
            r.another_id == self.another_id,
            r.cluster_key == self.cluster_key,
            r.another_cluster_key == self.another_cluster_key,
    {
        SomeStructPrimaryKey {
            id: self.id,
            another_id: self.another_id,
            cluster_key: self.cluster_key,
            another_cluster_key: self.another_cluster_key,
        }
    }

    /// The primary key of the row, leaving the row in place.
    pub fn clone_primary_key(&self) -> (r: SomeStructPrimaryKey)
        ensures
            r.id == self.id,
            r.another_id == self.another_id,
            r.cluster_key == self.cluster_key,
            r.another_cluster_key == self.another_cluster_key,
    {
        SomeStructPrimaryKey {
            id: self.id,
            another_id: self.another_id,
            cluster_key: self.cluster_key,
            another_cluster_key: self.another_cluster_key,
        }
    }
}

impl SomeStructPrimaryKey {
    /// The values that fill the parameters of the where clause on the
    /// primary key, in the order of its columns.
    pub fn where_clause_raw(&self) -> (r: Vec<i32>)
        ensures
            r@ == seq![self.id, self.another_id, self.cluster_key, self.another_cluster_key],
    {
        let mut r: Vec<i32> = Vec::new();
        r.push(self.id);
        r.push(self.another_id);
        r.push(self.cluster_key);
        r.push(self.another_cluster_key);
        r
    }
}

impl SomeStructUpdatableColumns {
    /// The name of the column that the value updates.
    pub fn column_name(&self) -> (r: &'static str)
        ensures
            r@ == "name"@,
    {
        match self {
            SomeStructUpdatableColumns::Name(_) => "name",
        }
    }
}

} // verus!
