//! Fixed values for exercising the schema helpers.
use crate::dht::bbdht::dynamodb::schema::{
    hash_key, string_attribute_definition, AttributeDefinition, KeySchemaElement,
};
use crate::fresh::{is_v4_uuid_text, prefixed_fresh};
use vstd::prelude::*;

verus! {

/// The name of the primary key attribute of the sample schema.
pub fn primary_key_attribute_name_a() -> (r: String)
    ensures
        r@ == "key_a"@,
{
    String::from_str("key_a")
}

/// A fresh random attribute name: `key_` and a UUID.
pub fn attribute_name_fresh() -> (r: String)
    ensures
        r@.len() == 40,
        r@.subrange(0, 4) == "key_"@,
        is_v4_uuid_text(r@.subrange(4, 40)),
{
    proof {
        reveal_strlit("key_");
    }
    prefixed_fresh("key_")
}

/// The sample key schema: `key_a` as the hash key.
pub fn key_schema_a() -> (r: Vec<KeySchemaElement>)
    ensures
        r@.len() == 1,
        r@[0].attribute_name@ == "key_a"@,
        r@[0].key_type@ == "HASH"@,
{
    let name = primary_key_attribute_name_a();
    vec![hash_key(name.as_str())]
}

/// The sample attribute definitions: `key_a` as a string.
pub fn attribute_definitions_a() -> (r: Vec<AttributeDefinition>)
    ensures
        r@.len() == 1,
        r@[0].attribute_name@ == "key_a"@,
        r@[0].attribute_type@ == "S"@,
{
    let name = primary_key_attribute_name_a();
    vec![string_attribute_definition(name.as_str())]
}

} // verus!
