//! Fixed and fresh names for exercising table creation.
use crate::dht::bbdht::dynamodb::schema::{
    hash_key, string_attribute_definition, AttributeDefinition, KeySchemaElement,
};
use crate::fresh::{is_v4_uuid_text, prefixed_fresh};
use vstd::prelude::*;

verus! {

/// A fresh random table name: `table_` and a UUID.
pub fn table_name_fresh() -> (r: String)
    ensures
        r@.len() == 42,
        r@.subrange(0, 6) == "table_"@,
        is_v4_uuid_text(r@.subrange(6, 42)),
{
    proof {
        reveal_strlit("table_");
    }
    prefixed_fresh("table_")
}

/// The name of the primary key of the sample table.
pub fn primary_key_name_a() -> (r: String)
    ensures
        r@ == "key_a"@,
{
    String::from_str("key_a")
}

/// A fresh random primary key name: `key_` and a UUID.
pub fn primary_key_name_fresh() -> (r: String)
    ensures
        r@.len() == 40,
        r@.subrange(0, 4) == "key_"@,
        is_v4_uuid_text(r@.subrange(4, 40)),
{
    proof {
        reveal_strlit("key_");
    }
    prefixed_fresh("key_")
}

/// The key schema of the sample table: `key_a` as the hash key.
pub fn key_schema_a() -> (r: Vec<KeySchemaElement>)
    ensures
        r@.len() == 1,
        r@[0].attribute_name@ == "key_a"@,
        r@[0].key_type@ == "HASH"@,
{
    let name = primary_key_name_a();
    vec![hash_key(name.as_str())]
}

/// The attribute definitions of the sample table: `key_a` as a string.
pub fn attribute_definitions_a() -> (r: Vec<AttributeDefinition>)
    ensures
        r@.len() == 1,
        r@[0].attribute_name@ == "key_a"@,
        r@[0].attribute_type@ == "S"@,
{
    let name = primary_key_name_a();
    vec![string_attribute_definition(name.as_str())]
}

} // verus!
