//! The requests that the library asks of the database, and the replies it reads.
use crate::dht::bbdht::dynamodb::api::item::Item;
use crate::dht::bbdht::dynamodb::schema::{AttributeDefinition, KeySchemaElement};
use crate::dht::bbdht::error::DbError;
use vstd::prelude::*;

verus! {

/// Read one item by its key.
#[derive(Debug)]
pub struct GetItemInput {
    pub table_name: String,
    pub key: Item,
    pub consistent_read: Option<bool>,
}

/// Write one item, in place of any item with the same key.
#[derive(Debug)]
pub struct PutItemInput {
    pub table_name: String,
    pub item: Item,
}

/// Change attributes of one item, creating the item if there is none.
#[derive(Debug)]
pub struct UpdateItemInput {
    pub table_name: String,
    pub key: Item,
    pub update_expression: Option<String>,
    pub expression_attribute_names: Option<Vec<(String, String)>>,
    pub expression_attribute_values: Option<Item>,
}

/// Create a table.
#[derive(Debug)]
pub struct CreateTableInput {
    pub table_name: String,
    pub key_schema: Vec<KeySchemaElement>,
    pub attribute_definitions: Vec<AttributeDefinition>,
    pub read_capacity_units: i64,
    pub write_capacity_units: i64,
}

/// Read the items of a table, a page at a time.
#[derive(Debug)]
pub struct ScanInput {
    pub table_name: String,
    pub projection_expression: Option<String>,
    pub exclusive_start_key: Option<Item>,
    pub consistent_read: Option<bool>,
}

/// A page of a scan, and the key to start the next page from, if there is one.
#[derive(Debug)]
pub struct ScanOutput {
    pub items: Option<Vec<Item>>,
    pub last_evaluated_key: Option<Item>,
}

/// What the database says of a table.
#[derive(Debug, Clone)]
pub struct TableDescription {
    pub table_name: Option<String>,
    pub table_status: Option<String>,
    pub key_schema: Option<Vec<KeySchemaElement>>,
    pub attribute_definitions: Option<Vec<AttributeDefinition>>,
}

/// Describe a table.
#[derive(Debug)]
pub struct DescribeTableInput {
    pub table_name: String,
}

/// Delete a table.
#[derive(Debug)]
pub struct DeleteTableInput {
    pub table_name: String,
}

/// A request to the database.
#[derive(Debug)]
pub enum DbRequest {
    GetItem(GetItemInput),
    PutItem(PutItemInput),
    UpdateItem(UpdateItemInput),
    DescribeTable(DescribeTableInput),
    CreateTable(CreateTableInput),
    DeleteTable(DeleteTableInput),
}

/// The database's reply to a request, of the same kind as the request.
#[derive(Debug)]
pub enum DbReply {
    GetItem(Result<Option<Item>, DbError>),
    PutItem(Result<(), DbError>),
    UpdateItem(Result<(), DbError>),
    DescribeTable(Result<TableDescription, DbError>),
    CreateTable(Result<Option<TableDescription>, DbError>),
    DeleteTable(Result<(), DbError>),
}

/// What an operation does next: send a request and wait for its reply, or finish.
#[derive(Debug)]
pub enum Step<T> {
    Send(DbRequest),
    Done(T),
}

} // verus!
