//! What a space knows of the database it is stored in.
use crate::dht::bbdht::dynamodb::schema::TableName;
use vstd::prelude::*;

verus! {

/// The table that a space is stored in. The client that reaches the database
/// stays with the caller, which performs the requests that the library builds.
#[derive(Debug, Clone, Default)]
pub struct Connection {
    table_name: TableName,
}

impl View for Connection {
    type V = Seq<char>;

    /// The name of the table.
    closed spec fn view(&self) -> Seq<char> {
        self.table_name@
    }
}

impl Connection {
    /// The name of the table.
    pub fn table_name(&self) -> (r: &TableName)
        ensures
            r@ == self@,
    {
        &self.table_name
    }

    /// A connection to the table `table_name`.
    pub fn new(table_name: &TableName) -> (r: Connection)
        ensures
            r@ == table_name@,
    {
        Connection { table_name: table_name.copy() }
    }
}

} // verus!
