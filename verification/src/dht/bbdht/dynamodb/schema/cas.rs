//! The attribute names of the content addressable store table.
use crate::dht::bbdht::dynamodb::schema::{
    hash_key, string_attribute_definition, AttributeDefinition, KeySchemaElement,
};
use vstd::prelude::*;

verus! {

// dynamodb needs a single partition/primary key
pub const PARTITION_KEY: &'static str = "partition_key";
pub const SPACE_KEY: &'static str = "space";
pub const NETWORK_KEY: &'static str = "network";
pub const ITEM_KEY: &'static str = "item";

// addressable content
pub const CONTENT_KEY: &'static str = "content";

// entry aspects
pub const ASPECT_LIST_KEY: &'static str = "aspect_list";
pub const ASPECT_ADDRESS_KEY: &'static str = "aspect_address";
pub const ASPECT_TYPE_HINT_KEY: &'static str = "aspect_type_hint";
pub const ASPECT_KEY: &'static str = "aspect";
pub const ASPECT_PUBLISH_TS_KEY: &'static str = "aspect_publish_ts";

// direct messaging keys
pub const INBOX_KEY_PREFIX: &'static str = "inbox_";
pub const ALL_MESSAGES_FOLDER: &'static str = "all_messages";
pub const SEEN_MESSAGES_FOLDER: &'static str = "seen_messages";
pub const MESSAGE_FROM_KEY: &'static str = "message_from";
pub const MESSAGE_TO_KEY: &'static str = "message_to";
pub const MESSAGE_CONTENT_KEY: &'static str = "message_content";
pub const MESSAGE_IS_RESPONSE_KEY: &'static str = "message_is_response";

/// The key under which an agent's inbox lives: the inbox prefix, then the agent's address.
pub fn inbox_key(agent_id: &String) -> (r: String)
    ensures
        r@ == INBOX_KEY_PREFIX@ + agent_id@,
{
    String::from_str(INBOX_KEY_PREFIX).concat(agent_id.as_str())
}

/// The partition key as the hash key of the table.
pub fn partition_key_schema() -> (r: KeySchemaElement)
    ensures
        r.attribute_name@ == PARTITION_KEY@,
        r.key_type@ == "HASH"@,
{
    hash_key(PARTITION_KEY)
}

/// The key schema of the table: the partition key alone.
pub fn key_schema_cas() -> (r: Vec<KeySchemaElement>)
    ensures
        r@.len() == 1,
        r@[0].attribute_name@ == PARTITION_KEY@,
        r@[0].key_type@ == "HASH"@,
{
    vec![partition_key_schema()]
}

/// The attribute definition of the table's key: the item key attribute, declared
/// as a string.
pub fn partition_key_attribute_definition() -> (r: AttributeDefinition)
    ensures
        r.attribute_name@ == ITEM_KEY@,
        r.attribute_type@ == "S"@,
{
    string_attribute_definition(ITEM_KEY)
}

/// The attribute definitions of the table: the key's definition alone.
pub fn attribute_definitions_cas() -> (r: Vec<AttributeDefinition>)
    ensures
        r@.len() == 1,
        r@[0].attribute_name@ == ITEM_KEY@,
        r@[0].attribute_type@ == "S"@,
{
    vec![partition_key_attribute_definition()]
}

/// The attribute names that share an item have different lengths, so no two of them are equal.
pub proof fn lemma_attribute_name_lengths()
    ensures
        PARTITION_KEY@.len() == 13,
        CONTENT_KEY@.len() == 7,
        ASPECT_LIST_KEY@.len() == 11,
        ASPECT_ADDRESS_KEY@.len() == 14,
        ASPECT_TYPE_HINT_KEY@.len() == 16,
        ASPECT_KEY@.len() == 6,
        ASPECT_PUBLISH_TS_KEY@.len() == 17,
        MESSAGE_FROM_KEY@.len() == 12,
        MESSAGE_TO_KEY@.len() == 10,
        MESSAGE_CONTENT_KEY@.len() == 15,
        MESSAGE_IS_RESPONSE_KEY@.len() == 19,
        SPACE_KEY@.len() == 5,
        ITEM_KEY@.len() == 4,
        NETWORK_KEY@.len() == 7,
        ALL_MESSAGES_FOLDER@.len() == 12,
        SEEN_MESSAGES_FOLDER@.len() == 13,
        CONTENT_KEY@ != NETWORK_KEY@,
        SEEN_MESSAGES_FOLDER@ != PARTITION_KEY@,
{
    reveal_strlit("partition_key");
    reveal_strlit("content");
    reveal_strlit("aspect_list");
    reveal_strlit("aspect_address");
    reveal_strlit("aspect_type_hint");
    reveal_strlit("aspect");
    reveal_strlit("aspect_publish_ts");
    reveal_strlit("message_from");
    reveal_strlit("message_to");
    reveal_strlit("message_content");
    reveal_strlit("message_is_response");
    reveal_strlit("space");
    reveal_strlit("item");
    reveal_strlit("network");
    reveal_strlit("all_messages");
    reveal_strlit("seen_messages");
    assert(CONTENT_KEY@[0] != NETWORK_KEY@[0]);
    assert(SEEN_MESSAGES_FOLDER@[0] != PARTITION_KEY@[0]);
}

} // verus!
