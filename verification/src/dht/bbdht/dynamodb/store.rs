//! What the database does with the library's writes, as DynamoDB documents it,
//! for stating what a later read gives back of them.
use crate::dht::bbdht::dynamodb::schema::AttributeValue;
use vstd::prelude::*;

verus! {

/// The texts of the string set that the attribute `name` of `item` holds: none
/// when there is no item, no such attribute, or no string set in it.
pub open spec fn string_set_of(item: Option<Map<Seq<char>, AttributeValue>>, name: Seq<char>) -> Set<Seq<char>> {
    match item {
        Some(m) => if m.contains_key(name) && m[name].ss is Some {
            m[name].ss->0.deep_view().to_set()
        } else {
            Set::empty()
        },
        None => Set::empty(),
    }
}

/// `after` is what an update `ADD name :set` with the string set `added` makes
/// of the item at its key, where `before` is the stored item (if any) and `key`
/// the update's key. DynamoDB documents that ADD on a string set stores the
/// union of the set it held (none if the attribute or the item was missing)
/// and the added set, each text once; that it leaves every other attribute as
/// it was; and that an update of a missing item creates it from the key. ADD
/// on an attribute that holds no string set is refused, so such a `before` is
/// left out.
pub open spec fn adds_string_set(
    before: Option<Map<Seq<char>, AttributeValue>>,
    key: Map<Seq<char>, AttributeValue>,
    name: Seq<char>,
    added: Seq<Seq<char>>,
    after: Map<Seq<char>, AttributeValue>,
) -> bool {
    let base = match before {
        Some(m) => m,
        None => key,
    };
    &&& base.contains_key(name) ==> base[name].ss is Some
    &&& after.contains_key(name)
    &&& after[name].ss is Some
    &&& after[name].ss->0.deep_view().no_duplicates()
    &&& string_set_of(Some(after), name) == string_set_of(before, name) + added.to_set()
    &&& after.remove(name) == base.remove(name)
}

} // verus!
