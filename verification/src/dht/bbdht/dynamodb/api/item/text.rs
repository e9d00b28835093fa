//! Text renderings of attribute values and items, for error messages.
use crate::decimal::{decimal, u64_to_decimal};
use crate::dht::bbdht::dynamodb::api::aspect::read::joined;
use crate::dht::bbdht::dynamodb::api::item::Item;
use crate::dht::bbdht::dynamodb::schema::AttributeValue;
use crate::network::RequestId;
use vstd::prelude::*;

verus! {

/// `s` between double quotes; the characters of `s` are not escaped.
pub open spec fn quoted(s: Seq<char>) -> Seq<char> {
    "\""@ + s + "\""@
}

/// `true` or `false`.
pub open spec fn bool_text(b: bool) -> Seq<char> {
    if b {
        "true"@
    } else {
        "false"@
    }
}

/// A count of things: `<`, the number in decimal, a space, what is counted, `>`.
pub open spec fn count_text(n: nat, what: Seq<char>) -> Seq<char> {
    "<"@ + decimal(n) + " "@ + what + ">"@
}

/// Each text between double quotes.
pub open spec fn quoted_all(texts: Seq<Seq<char>>) -> Seq<Seq<char>> {
    texts.map_values(|t: Seq<char>| quoted(t))
}

/// The text `t` alone when `present`, else nothing.
pub open spec fn part_if(present: bool, t: Seq<char>) -> Seq<Seq<char>> {
    if present {
        seq![t]
    } else {
        Seq::empty()
    }
}

/// The rendering of each field that `v` sets, in field order, each named by its
/// DynamoDB type: binaries and lists by their sizes, a map by its number of
/// attributes, numbers and number sets as written, strings and string sets
/// between quotes, booleans and the null flag as `true` or `false`.
pub open spec fn field_texts(v: AttributeValue) -> Seq<Seq<char>> {
    part_if(v.b is Some, "B: "@ + count_text(v.b->0@.len(), "bytes"@))
        + part_if(v.bool is Some, "BOOL: "@ + bool_text(v.bool->0))
        + part_if(v.bs is Some, "BS: "@ + count_text(v.bs->0@.len(), "binaries"@))
        + part_if(v.l is Some, "L: "@ + count_text(v.l->0@.len(), "values"@))
        + part_if(v.m is Some, "M: "@ + count_text(v.m->0.entry_seq().len(), "attributes"@))
        + part_if(v.n is Some, "N: "@ + v.n->0@)
        + part_if(v.ns is Some, "NS: ["@ + joined(v.ns->0.deep_view(), ", "@) + "]"@)
        + part_if(v.null is Some, "NULL: "@ + bool_text(v.null->0))
        + part_if(v.s is Some, "S: "@ + quoted(v.s->0@))
        + part_if(v.ss is Some, "SS: ["@ + joined(quoted_all(v.ss->0.deep_view()), ", "@) + "]"@)
}

/// The rendering of an attribute value: its fields' renderings, separated by a
/// comma and a space, between braces.
pub open spec fn value_text(v: AttributeValue) -> Seq<char> {
    "{"@ + joined(field_texts(v), ", "@) + "}"@
}

/// The rendering of one attribute: its name between quotes, a colon, a space,
/// and its value's rendering.
pub open spec fn entry_text(e: (String, AttributeValue)) -> Seq<char> {
    quoted(e.0@) + ": "@ + value_text(e.1)
}

/// The rendering of an item: its attributes' renderings, in the item's order,
/// separated by a comma and a space, between braces.
pub open spec fn item_text(item: Item) -> Seq<char> {
    "{"@ + joined(item.entry_seq().map_values(|e: (String, AttributeValue)| entry_text(e)), ", "@) + "}"@
}

/// The rendering of a request id: `RequestId(`, the id between quotes, `)`.
pub open spec fn request_id_text(id: Seq<char>) -> Seq<char> {
    "RequestId("@ + quoted(id) + ")"@
}

/// The rendering of a request id.
pub fn render_request_id(id: &RequestId) -> (r: String)
    ensures
        r@ == request_id_text(id@),
{
    let mut r = String::from_str("RequestId(");
    let q = quote(id.0.as_str());
    r.append(q.as_str());
    r.append(")");
    r
}

/// The texts of `parts`, separated by `sep`.
fn join_texts(parts: &Vec<String>, sep: &str) -> (r: String)
    ensures
        r@ == joined(parts.deep_view(), sep@),
{
    let ghost texts = parts.deep_view();
    let mut text = String::new();
    let mut i: usize = 0;
    while i < parts.len()
        invariant
            i <= parts@.len(),
            texts == parts.deep_view(),
            text@ == joined(texts.subrange(0, i as int), sep@),
        decreases parts@.len() - i,
    {
        proof {
            let prefix = texts.subrange(0, i + 1);
            assert(prefix.drop_last() =~= texts.subrange(0, i as int));
            assert(prefix.last() == parts@[i as int]@);
            if i == 0 {
                assert(prefix =~= seq![parts@[0]@]);
            }
        }
        if i != 0 {
            text.append(sep);
        }
        text.append(parts[i].as_str());
        proof {
            if i == 0 {
                assert(text@ =~= joined(texts.subrange(0, 1), sep@));
            }
        }
        i = i + 1;
    }
    assert(texts.subrange(0, parts@.len() as int) =~= texts);
    text
}

/// `s` between double quotes.
fn quote(s: &str) -> (r: String)
    ensures
        r@ == quoted(s@),
{
    let mut r = String::from_str("\"");
    r.append(s);
    r.append("\"");
    r
}

fn render_bool(b: bool) -> (r: String)
    ensures
        r@ == bool_text(b),
{
    if b {
        String::from_str("true")
    } else {
        String::from_str("false")
    }
}

fn render_count(n: usize, what: &str) -> (r: String)
    ensures
        r@ == count_text(n as nat, what@),
{
    let mut r = String::from_str("<");
    let digits = u64_to_decimal(n as u64);
    r.append(digits.as_str());
    r.append(" ");
    r.append(what);
    r.append(">");
    r
}

/// `prefix`, then `body`.
fn prefixed(prefix: &str, body: String) -> (r: String)
    ensures
        r@ == prefix@ + body@,
{
    let mut r = String::from_str(prefix);
    r.append(body.as_str());
    r
}

/// `open`, then the texts of `parts` separated by a comma and a space, then `close`.
fn bracketed(open: &str, parts: &Vec<String>, close: &str) -> (r: String)
    ensures
        r@ == open@ + joined(parts.deep_view(), ", "@) + close@,
{
    let mut r = String::from_str(open);
    let inner = join_texts(parts, ", ");
    r.append(inner.as_str());
    r.append(close);
    r
}

/// Copies of texts, as written.
fn copy_texts(texts: &Vec<String>) -> (r: Vec<String>)
    ensures
        r.deep_view() == texts.deep_view(),
{
    let mut r: Vec<String> = Vec::new();
    let mut i: usize = 0;
    while i < texts.len()
        invariant
            i <= texts@.len(),
            r@.len() == i,
            forall|j: int| 0 <= j < i ==> (#[trigger] r@[j])@ == texts@[j]@,
        decreases texts@.len() - i,
    {
        r.push(texts[i].clone());
        i = i + 1;
    }
    assert(r.deep_view() =~= texts.deep_view());
    r
}

/// The texts, each between double quotes.
fn quote_all(texts: &Vec<String>) -> (r: Vec<String>)
    ensures
        r.deep_view() == quoted_all(texts.deep_view()),
{
    let mut r: Vec<String> = Vec::new();
    let mut i: usize = 0;
    while i < texts.len()
        invariant
            i <= texts@.len(),
            r@.len() == i,
            forall|j: int| 0 <= j < i ==> (#[trigger] r@[j])@ == quoted(texts@[j]@),
        decreases texts@.len() - i,
    {
        r.push(quote(texts[i].as_str()));
        i = i + 1;
    }
    assert(r.deep_view() =~= quoted_all(texts.deep_view()));
    r
}

/// Adds `part` to `parts` when `present`.
fn push_if(parts: &mut Vec<String>, present: bool, part: String)
    ensures
        final(parts).deep_view() == old(parts).deep_view() + part_if(present, part@),
{
    let ghost before = parts.deep_view();
    if present {
        parts.push(part);
        assert(parts.deep_view() =~= before + seq![part@]);
    } else {
        assert(parts.deep_view() =~= before + Seq::<Seq<char>>::empty());
    }
}

/// The rendering of an attribute value.
pub fn render_value(v: &AttributeValue) -> (r: String)
    ensures
        r@ == value_text(*v),
{
    let mut parts: Vec<String> = Vec::new();
    let ghost start = parts.deep_view();
    assert(start =~= Seq::<Seq<char>>::empty());
    match &v.b {
        Some(x) => push_if(&mut parts, true, prefixed("B: ", render_count(x.len(), "bytes"))),
        None => push_if(&mut parts, false, String::new()),
    }
    match &v.bool {
        Some(x) => push_if(&mut parts, true, prefixed("BOOL: ", render_bool(*x))),
        None => push_if(&mut parts, false, String::new()),
    }
    match &v.bs {
        Some(x) => push_if(&mut parts, true, prefixed("BS: ", render_count(x.len(), "binaries"))),
        None => push_if(&mut parts, false, String::new()),
    }
    match &v.l {
        Some(x) => push_if(&mut parts, true, prefixed("L: ", render_count(x.len(), "values"))),
        None => push_if(&mut parts, false, String::new()),
    }
    match &v.m {
        Some(x) => push_if(&mut parts, true, prefixed("M: ", render_count(x.entries().len(), "attributes"))),
        None => push_if(&mut parts, false, String::new()),
    }
    match &v.n {
        Some(x) => push_if(&mut parts, true, prefixed("N: ", x.clone())),
        None => push_if(&mut parts, false, String::new()),
    }
    match &v.ns {
        Some(x) => push_if(&mut parts, true, bracketed("NS: [", &copy_texts(x), "]")),
        None => push_if(&mut parts, false, String::new()),
    }
    match &v.null {
        Some(x) => push_if(&mut parts, true, prefixed("NULL: ", render_bool(*x))),
        None => push_if(&mut parts, false, String::new()),
    }
    match &v.s {
        Some(x) => push_if(&mut parts, true, prefixed("S: ", quote(x.as_str()))),
        None => push_if(&mut parts, false, String::new()),
    }
    match &v.ss {
        Some(x) => push_if(&mut parts, true, bracketed("SS: [", &quote_all(x), "]")),
        None => push_if(&mut parts, false, String::new()),
    }
    assert(parts.deep_view() =~= field_texts(*v));
    bracketed("{", &parts, "}")
}

/// The rendering of an item.
pub fn render_item(item: &Item) -> (r: String)
    ensures
        r@ == item_text(*item),
{
    let entries = item.entries();
    let ghost texts = entries@.map_values(|e: (String, AttributeValue)| entry_text(e));
    let mut parts: Vec<String> = Vec::new();
    let mut i: usize = 0;
    while i < entries.len()
        invariant
            i <= entries@.len(),
            parts@.len() == i,
            texts == entries@.map_values(|e: (String, AttributeValue)| entry_text(e)),
            forall|j: int| 0 <= j < i ==> (#[trigger] parts@[j])@ == texts[j],
        decreases entries@.len() - i,
    {
        let mut part = quote(entries[i].0.as_str());
        part.append(": ");
        let value = render_value(&entries[i].1);
        part.append(value.as_str());
        parts.push(part);
        i = i + 1;
    }
    assert(parts.deep_view() =~= texts);
    bracketed("{", &parts, "}")
}

} // verus!
