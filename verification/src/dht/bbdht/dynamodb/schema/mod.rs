//! The shapes of DynamoDB attributes, keys and table definitions.
pub mod cas;
pub mod fixture;

use crate::decimal::{decimal, u64_to_decimal};
use crate::dht::bbdht::dynamodb::api::item::Item;
use vstd::prelude::*;
use vstd::std_specs::convert::FromSpecImpl;

verus! {

/// The name of a table.
#[derive(Debug, PartialEq, Eq, Clone, Default)]
pub struct TableName(pub String);

impl View for TableName {
    type V = Seq<char>;

    open spec fn view(&self) -> Seq<char> {
        self.0@
    }
}

impl TableName {
    /// The table name as text.
    pub fn as_string(&self) -> (r: &String)
        ensures
            r@ == self@,
    {
        &self.0
    }

    /// A copy of this table name.
    pub fn copy(&self) -> (r: TableName)
        ensures
            r@ == self@,
    {
        TableName(self.0.clone())
    }
}

impl From<TableName> for String {
    fn from(table_name: TableName) -> (r: String) {
        table_name.0
    }
}

impl FromSpecImpl<TableName> for String {
    open spec fn obeys_from_spec() -> bool {
        true
    }

    open spec fn from_spec(v: TableName) -> String {
        v.0
    }
}

impl From<String> for TableName {
    fn from(string: String) -> (r: TableName) {
        TableName(string)
    }
}

impl FromSpecImpl<String> for TableName {
    open spec fn obeys_from_spec() -> bool {
        true
    }

    open spec fn from_spec(v: String) -> TableName {
        TableName(v)
    }
}

impl<'a> From<&'a String> for TableName {
    fn from(string: &'a String) -> (r: TableName) {
        TableName(string.clone())
    }
}

impl<'a> FromSpecImpl<&'a String> for TableName {
    open spec fn obeys_from_spec() -> bool {
        true
    }

    open spec fn from_spec(v: &'a String) -> TableName {
        TableName(*v)
    }
}

impl<'a> From<&'a TableName> for String {
    fn from(table_name: &'a TableName) -> (r: String) {
        table_name.0.clone()
    }
}

impl<'a> FromSpecImpl<&'a TableName> for String {
    open spec fn obeys_from_spec() -> bool {
        true
    }

    open spec fn from_spec(v: &'a TableName) -> String {
        v.0
    }
}

/// One element of a table's key schema: an attribute and its role (`HASH` or `RANGE`).
#[derive(Debug, PartialEq, Eq, Clone)]
pub struct KeySchemaElement {
    pub attribute_name: String,
    pub key_type: String,
}

/// The declared type of a key attribute (`S`, `N` or `B`).
#[derive(Debug, PartialEq, Eq, Clone)]
pub struct AttributeDefinition {
    pub attribute_name: String,
    pub attribute_type: String,
}

/// One attribute value of an item, with one field per DynamoDB data type.
#[derive(Debug, PartialEq, Eq)]
pub struct AttributeValue {
    pub b: Option<Vec<u8>>,
    pub bool: Option<bool>,
    pub bs: Option<Vec<Vec<u8>>>,
    pub l: Option<Vec<AttributeValue>>,
    pub m: Option<Item>,
    pub n: Option<String>,
    pub ns: Option<Vec<String>>,
    pub null: Option<bool>,
    pub s: Option<String>,
    pub ss: Option<Vec<String>>,
}

/// No field of `a` is set but, possibly, those that the flags name.
pub open spec fn only_fields(
    a: AttributeValue,
    b: bool,
    bool_: bool,
    l: bool,
    n: bool,
    s: bool,
    ss: bool,
) -> bool {
    &&& (!b ==> a.b is None)
    &&& (!bool_ ==> a.bool is None)
    &&& a.bs is None
    &&& (!l ==> a.l is None)
    &&& a.m is None
    &&& (!n ==> a.n is None)
    &&& a.ns is None
    &&& a.null is None
    &&& (!s ==> a.s is None)
    &&& (!ss ==> a.ss is None)
}

/// `a` is the string `v`, and nothing else.
pub open spec fn holds_string(a: AttributeValue, v: Seq<char>) -> bool {
    &&& a.s matches Some(x) && x@ == v
    &&& only_fields(a, false, false, false, false, true, false)
}

/// `a` is the boolean `v`, and nothing else.
pub open spec fn holds_bool(a: AttributeValue, v: bool) -> bool {
    &&& a.bool == Some(v)
    &&& only_fields(a, false, true, false, false, false, false)
}

/// `a` is the binary `v`, and nothing else.
pub open spec fn holds_blob(a: AttributeValue, v: Seq<u8>) -> bool {
    &&& a.b matches Some(x) && x@ == v
    &&& only_fields(a, true, false, false, false, false, false)
}

/// `a` is the number written `v`, and nothing else.
pub open spec fn holds_number(a: AttributeValue, v: Seq<char>) -> bool {
    &&& a.n matches Some(x) && x@ == v
    &&& only_fields(a, false, false, false, true, false, false)
}

/// `a` is the string set `v`, and nothing else.
pub open spec fn holds_string_set(a: AttributeValue, v: Seq<Seq<char>>) -> bool {
    &&& a.ss matches Some(x) && x.deep_view() == v
    &&& only_fields(a, false, false, false, false, false, true)
}

/// `a` is the list `v`, and nothing else.
pub open spec fn holds_list(a: AttributeValue, v: Seq<AttributeValue>) -> bool {
    &&& a.l matches Some(x) && x@ == v
    &&& only_fields(a, false, false, true, false, false, false)
}

/// The key schema element that makes `attribute_name` the hash (partition) key.
pub fn hash_key(attribute_name: &str) -> (r: KeySchemaElement)
    ensures
        r.attribute_name@ == attribute_name@,
        r.key_type@ == "HASH"@,
{
    KeySchemaElement { attribute_name: attribute_name.to_owned(), key_type: String::from_str("HASH") }
}

/// The definition of `attribute_name` as a string attribute.
pub fn string_attribute_definition(attribute_name: &str) -> (r: AttributeDefinition)
    ensures
        r.attribute_name@ == attribute_name@,
        r.attribute_type@ == "S"@,
{
    AttributeDefinition {
        attribute_name: attribute_name.to_owned(),
        attribute_type: String::from_str("S"),
    }
}

fn empty_value() -> (r: AttributeValue)
    ensures
        only_fields(r, false, false, false, false, false, false),
{
    AttributeValue {
        b: None,
        bool: None,
        bs: None,
        l: None,
        m: None,
        n: None,
        ns: None,
        null: None,
        s: None,
        ss: None,
    }
}

/// A string attribute value.
pub fn string_attribute_value(value: &String) -> (r: AttributeValue)
    ensures
        holds_string(r, value@),
{
    AttributeValue { s: Some(value.clone()), ..empty_value() }
}

/// A boolean attribute value.
pub fn bool_attribute_value(value: bool) -> (r: AttributeValue)
    ensures
        holds_bool(r, value),
{
    AttributeValue { bool: Some(value), ..empty_value() }
}

/// A binary attribute value, a copy of `value`.
pub fn blob_attribute_value(value: &Vec<u8>) -> (r: AttributeValue)
    ensures
        holds_blob(r, value@),
{
    let mut copy: Vec<u8> = Vec::new();
    let mut i: usize = 0;
    while i < value.len()
        invariant
            i <= value@.len(),
            copy@ == value@.subrange(0, i as int),
        decreases value@.len() - i,
    {
        copy.push(value[i]);
        i = i + 1;
    }
    assert(copy@ =~= value@);
    AttributeValue { b: Some(copy), ..empty_value() }
}

/// A number attribute value: the decimal text of `value`.
pub fn number_attribute_value(value: &u64) -> (r: AttributeValue)
    ensures
        holds_number(r, decimal(*value as nat)),
{
    AttributeValue { n: Some(u64_to_decimal(*value)), ..empty_value() }
}

/// A string set attribute value.
pub fn string_set_attribute_value(value: Vec<String>) -> (r: AttributeValue)
    ensures
        holds_string_set(r, value.deep_view()),
{
    AttributeValue { ss: Some(value), ..empty_value() }
}

/// A list attribute value.
pub fn list_attribute_value(value: Vec<AttributeValue>) -> (r: AttributeValue)
    ensures
        holds_list(r, value@),
{
    AttributeValue { l: Some(value), ..empty_value() }
}

impl View for KeySchemaElement {
    type V = (Seq<char>, Seq<char>);

    open spec fn view(&self) -> (Seq<char>, Seq<char>) {
        (self.attribute_name@, self.key_type@)
    }
}

impl View for AttributeDefinition {
    type V = (Seq<char>, Seq<char>);

    open spec fn view(&self) -> (Seq<char>, Seq<char>) {
        (self.attribute_name@, self.attribute_type@)
    }
}

/// A key schema as plain values.
pub open spec fn key_schema_view(v: Seq<KeySchemaElement>) -> Seq<(Seq<char>, Seq<char>)> {
    v.map_values(|k: KeySchemaElement| k@)
}

/// Attribute definitions as plain values.
pub open spec fn attribute_definitions_view(v: Seq<AttributeDefinition>) -> Seq<(Seq<char>, Seq<char>)> {
    v.map_values(|d: AttributeDefinition| d@)
}

/// A copy of a key schema.
pub fn copy_key_schema(v: &Vec<KeySchemaElement>) -> (r: Vec<KeySchemaElement>)
    ensures
        key_schema_view(r@) == key_schema_view(v@),
{
    let mut r: Vec<KeySchemaElement> = Vec::new();
    let mut i: usize = 0;
    while i < v.len()
        invariant
            i <= v@.len(),
            r@.len() == i,
            forall|j: int| 0 <= j < i ==> (#[trigger] r@[j])@ == v@[j]@,
        decreases v@.len() - i,
    {
        r.push(
            KeySchemaElement {
                attribute_name: v[i].attribute_name.clone(),
                key_type: v[i].key_type.clone(),
            },
        );
        i = i + 1;
    }
    assert(key_schema_view(r@) =~= key_schema_view(v@));
    r
}

/// A copy of attribute definitions.
pub fn copy_attribute_definitions(v: &Vec<AttributeDefinition>) -> (r: Vec<AttributeDefinition>)
    ensures
        attribute_definitions_view(r@) == attribute_definitions_view(v@),
{
    let mut r: Vec<AttributeDefinition> = Vec::new();
    let mut i: usize = 0;
    while i < v.len()
        invariant
            i <= v@.len(),
            r@.len() == i,
            forall|j: int| 0 <= j < i ==> (#[trigger] r@[j])@ == v@[j]@,
        decreases v@.len() - i,
    {
        r.push(
            AttributeDefinition {
                attribute_name: v[i].attribute_name.clone(),
                attribute_type: v[i].attribute_type.clone(),
            },
        );
        i = i + 1;
    }
    assert(attribute_definitions_view(r@) =~= attribute_definitions_view(v@));
    r
}

} // verus!
