//! Whether a table exists, and waiting until it does or does not.
use crate::dht::bbdht::dynamodb::api::table::describe::describe_table;
use crate::dht::bbdht::dynamodb::request::{DbReply, DbRequest, DescribeTableInput, Step, TableDescription};
use crate::dht::bbdht::dynamodb::schema::TableName;
use crate::dht::bbdht::error::{error_of, BbDhtError, BbDhtResult, DbError};
use vstd::prelude::*;

verus! {

/// Whether a description says that the table is active.
pub open spec fn is_active(d: TableDescription) -> bool {
    d.table_status matches Some(status) && status@ == "ACTIVE"@
}

/// What a description reply says of the table's existence: it exists when it
/// is active; a table that is not found does not exist; any other failure is
/// the matching DHT error.
pub open spec fn existence(reply: Result<TableDescription, DbError>) -> Result<bool, BbDhtError> {
    match reply {
        Ok(d) => Ok(is_active(d)),
        Err(e) => match error_of(e) {
            BbDhtError::ResourceNotFound(_) => Ok(false),
            other => Err(other),
        },
    }
}

/// The request that asks whether the table `table_name` exists.
pub fn table_exists(table_name: &TableName) -> (r: DescribeTableInput)
    ensures
        r.table_name@ == table_name@,
{
    describe_table(table_name.as_string().as_str())
}

/// Whether the table exists, from the reply to its description.
pub fn table_exists_reply(reply: Result<TableDescription, DbError>) -> (r: BbDhtResult<bool>)
    ensures
        r == existence(reply),
{
    match reply {
        Ok(table_description) => Ok(
            match table_description.table_status {
                Some(status) => status == String::from_str("ACTIVE"),
                None => false,
            },
        ),
        Err(e) => match BbDhtError::from(e) {
            BbDhtError::ResourceNotFound(_) => Ok(false),
            err => Err(err),
        },
    }
}

/// Waiting until a table exists, or until it does not.
pub struct UntilTable {
    pub table_name: TableName,
    pub exists: bool,
}

impl UntilTable {
    /// The request that describes the awaited table.
    pub fn request(&self) -> (r: DbRequest)
        ensures
            r matches DbRequest::DescribeTable(d) && d.table_name@ == self.table_name@,
    {
        DbRequest::DescribeTable(table_exists(&self.table_name))
    }
}

/// Waits until the table `table_name` exists (or, with `exists` false, until it
/// does not): describes it again and again until a description says so. A
/// failed description is ignored, and the table described again.
pub fn until_table_exists_or_not(table_name: &TableName, exists: bool) -> (r: (UntilTable, DbRequest))
    ensures
        r.0.table_name@ == table_name@,
        r.0.exists == exists,
        r.1 matches DbRequest::DescribeTable(d) && d.table_name@ == table_name@,
{
    let wait = UntilTable { table_name: table_name.copy(), exists };
    let request = wait.request();
    (wait, request)
}

/// Waits until the table exists.
pub fn until_table_exists(table_name: &TableName) -> (r: (UntilTable, DbRequest))
    ensures
        r.0.table_name@ == table_name@,
        r.0.exists,
        r.1 matches DbRequest::DescribeTable(d) && d.table_name@ == table_name@,
{
    until_table_exists_or_not(table_name, true)
}

/// Waits until the table does not exist.
pub fn until_table_not_exists(table_name: &TableName) -> (r: (UntilTable, DbRequest))
    ensures
        r.0.table_name@ == table_name@,
        !r.0.exists,
        r.1 matches DbRequest::DescribeTable(d) && d.table_name@ == table_name@,
{
    until_table_exists_or_not(table_name, false)
}

impl UntilTable {
    /// After a description: done when it says what is awaited, else describe again.
    pub fn on_reply(self, reply: DbReply) -> (r: (UntilTable, Step<()>))
        requires
            reply is DescribeTable,
        ensures
            r.0.table_name@ == self.table_name@,
            r.0.exists == self.exists,
            if existence(reply->DescribeTable_0) == Ok::<bool, BbDhtError>(self.exists) {
                r.1 is Done
            } else {
                r.1 matches Step::Send(DbRequest::DescribeTable(d)) && d.table_name@ == self.table_name@
            },
    {
        match reply {
            DbReply::DescribeTable(description) => {
                let done = match table_exists_reply(description) {
                    Ok(does_exist) => does_exist == self.exists,
                    Err(_) => false,
                };
                if done {
                    (self, Step::Done(()))
                } else {
                    let request = self.request();
                    (self, Step::Send(request))
                }
            },
            _ => vstd::pervasive::unreached(),
        }
    }
}

} // verus!
