use sim1h::dht::bbdht::dynamodb::schema::cas::attribute_definitions_cas;
use sim1h::dht::bbdht::dynamodb::schema::cas::inbox_key;
use sim1h::dht::bbdht::dynamodb::schema::cas::key_schema_cas;
use sim1h::dht::bbdht::dynamodb::schema::cas::partition_key_attribute_definition;
use sim1h::dht::bbdht::dynamodb::schema::cas::partition_key_schema;
use sim1h::dht::bbdht::dynamodb::schema::cas::ITEM_KEY;
use sim1h::dht::bbdht::dynamodb::schema::cas::PARTITION_KEY;
use sim1h::dht::bbdht::dynamodb::schema::fixture::attribute_definitions_a;
use sim1h::dht::bbdht::dynamodb::schema::fixture::attribute_name_fresh;
use sim1h::dht::bbdht::dynamodb::schema::fixture::key_schema_a;
use sim1h::dht::bbdht::dynamodb::schema::fixture::primary_key_attribute_name_a;
use sim1h::dht::bbdht::dynamodb::schema::blob_attribute_value;
use sim1h::dht::bbdht::dynamodb::schema::bool_attribute_value;
use sim1h::dht::bbdht::dynamodb::schema::hash_key;
use sim1h::dht::bbdht::dynamodb::schema::list_attribute_value;
use sim1h::dht::bbdht::dynamodb::schema::number_attribute_value;
use sim1h::dht::bbdht::dynamodb::schema::string_attribute_definition;
use sim1h::dht::bbdht::dynamodb::schema::string_attribute_value;
use sim1h::dht::bbdht::dynamodb::schema::string_set_attribute_value;
use sim1h::dht::bbdht::dynamodb::schema::AttributeDefinition;
use sim1h::dht::bbdht::dynamodb::schema::AttributeValue;
use sim1h::dht::bbdht::dynamodb::schema::KeySchemaElement;
use sim1h::dht::bbdht::dynamodb::schema::TableName;
use sim1h::log::trace;

fn empty_value() -> AttributeValue {
    AttributeValue {
        b: None,
        bool: None,
        bs: None,
        l: None,
        m: None,
        n: None,
        ns: None,
        null: None,
        s: None,
        ss: None,
    }
}

#[test]
fn partition_key_schema_test() {
    let log_context = "partition_key_schema_test";

    trace(&log_context, "compare values");
    assert_eq!(
        KeySchemaElement {
            attribute_name: PARTITION_KEY.into(),
            key_type: "HASH".into(),
        },
        partition_key_schema(),
    );
}

#[test]
fn key_schema_cas_test() {
    let log_context = "key_schema_cas_test";

    trace(&log_context, "compare values");
    assert_eq!(
        vec![KeySchemaElement {
            attribute_name: PARTITION_KEY.into(),
            key_type: "HASH".into(),
        }],
        key_schema_cas()
    );
}

#[test]
fn attribute_definitions_cas_test() {
    let log_context = "attribute_definitions_cas_test";

    trace(&log_context, "compare values");
    assert_eq!(
        partition_key_attribute_definition(),
        attribute_definitions_cas()[0]
    );
}

#[test]
fn partition_key_attribute_definition_test() {
    let log_context = "address_attribute_definition_test";

    trace(&log_context, "compare values");
    assert_eq!(
        AttributeDefinition {
            attribute_name: ITEM_KEY.into(),
            attribute_type: "S".into(),
        },
        partition_key_attribute_definition(),
    );
}

#[test]
fn hash_key_test() {
    let attribute_name = attribute_name_fresh();

    let result = hash_key(&attribute_name);

    assert_eq!(
        KeySchemaElement {
            attribute_name: attribute_name.into(),
            key_type: String::from("HASH"),
        },
        result,
    );
}

#[test]
fn string_attribute_definition_test() {
    let attribute_name = attribute_name_fresh();

    let result = string_attribute_definition(&attribute_name);

    assert_eq!(
        AttributeDefinition {
            attribute_name: attribute_name.into(),
            attribute_type: "S".into(),
        },
        result,
    );
}

#[test]
fn string_attribute_value_test() {
    let value = String::from("foo");

    let result = string_attribute_value(&value);

    assert_eq!(
        AttributeValue {
            b: None,
            bool: None,
            bs: None,
            l: None,
            m: None,
            n: None,
            ns: None,
            null: None,
            s: Some(value.clone()),
            ss: None,
        },
        result,
    );
}

#[test]
fn typed_attribute_values_set_one_field() {
    let mut expected = empty_value();
    expected.bool = Some(true);
    assert_eq!(expected, bool_attribute_value(true));

    let mut expected = empty_value();
    expected.b = Some(vec![1, 2, 3]);
    assert_eq!(expected, blob_attribute_value(&vec![1, 2, 3]));

    let mut expected = empty_value();
    expected.n = Some("1568858140".to_string());
    assert_eq!(expected, number_attribute_value(&1568858140));

    let mut expected = empty_value();
    expected.n = Some("0".to_string());
    assert_eq!(expected, number_attribute_value(&0));

    let mut expected = empty_value();
    expected.n = Some("18446744073709551615".to_string());
    assert_eq!(expected, number_attribute_value(&u64::MAX));

    let mut expected = empty_value();
    expected.ss = Some(vec!["a".to_string(), "b".to_string()]);
    assert_eq!(
        expected,
        string_set_attribute_value(vec!["a".to_string(), "b".to_string()])
    );

    let mut expected = empty_value();
    expected.l = Some(vec![bool_attribute_value(false)]);
    assert_eq!(expected, list_attribute_value(vec![bool_attribute_value(false)]));
}

#[test]
fn fresh_attribute_names_differ() {
    let a = attribute_name_fresh();
    let b = attribute_name_fresh();
    assert!(a.starts_with("key_"));
    assert_eq!(40, a.len());
    assert_ne!(a, b);
}

#[test]
fn sample_schema_is_key_a() {
    assert_eq!("key_a", primary_key_attribute_name_a());
    assert_eq!(
        vec![KeySchemaElement {
            attribute_name: "key_a".into(),
            key_type: "HASH".into(),
        }],
        key_schema_a()
    );
    assert_eq!(
        vec![AttributeDefinition {
            attribute_name: "key_a".into(),
            attribute_type: "S".into(),
        }],
        attribute_definitions_a()
    );
}

#[test]
fn inbox_key_prefixes_the_agent() {
    assert_eq!("inbox_agent-1", inbox_key(&"agent-1".to_string()));
    assert_eq!("inbox_", inbox_key(&String::new()));
}

#[test]
fn table_name_converts_both_ways() {
    let name = TableName::from("table_x".to_string());
    assert_eq!("table_x", name.as_string());
    let back: String = name.copy().into();
    assert_eq!("table_x", back);
}
