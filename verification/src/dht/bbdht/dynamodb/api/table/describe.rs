//! Describing tables.
use crate::dht::bbdht::dynamodb::request::{DescribeTableInput, TableDescription};
use crate::dht::bbdht::error::DbError;
use vstd::prelude::*;

verus! {

/// The request that describes the table `table_name`.
pub fn describe_table(table_name: &str) -> (r: DescribeTableInput)
    ensures
        r.table_name@ == table_name@,
{
    DescribeTableInput { table_name: table_name.to_owned() }
}

/// The description that the reply to a description carries: a reply that
/// describes no table is a parse error.
pub fn described_table(table: Option<TableDescription>) -> (r: Result<TableDescription, DbError>)
    ensures
        match table {
            Some(d) => r == Ok::<TableDescription, DbError>(d),
            None => r matches Err(DbError::ParseError(m)) && m@ == "no table description"@,
        },
{
    match table {
        Some(d) => Ok(d),
        None => Err(DbError::ParseError(String::from_str("no table description"))),
    }
}

} // verus!
