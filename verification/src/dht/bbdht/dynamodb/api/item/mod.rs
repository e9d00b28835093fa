//! Items: the records of the table, as maps from attribute names to values.
pub mod read;
pub mod text;
pub mod write;

use crate::agent::AgentAddress;
use crate::aspect::{AspectAddress, EntryAddress};
use crate::data_types::EntryAspectData;
use crate::dht::bbdht::dynamodb::schema::cas::PARTITION_KEY;
use crate::dht::bbdht::dynamodb::schema::{holds_string, string_attribute_value, AttributeValue};
use crate::network::RequestId;
use crate::space::{Space, SpaceView};
use vstd::prelude::*;
use vstd::std_specs::convert::FromSpecImpl;

verus! {

/// The map that a list of (name, value) entries stands for; a later entry wins.
pub open spec fn entries_map(s: Seq<(String, AttributeValue)>) -> Map<Seq<char>, AttributeValue>
    decreases s.len(),
{
    if s.len() == 0 {
        Map::empty()
    } else {
        entries_map(s.drop_last()).insert(s.last().0@, s.last().1)
    }
}

/// No attribute name occurs twice among the entries.
pub open spec fn distinct_names(s: Seq<(String, AttributeValue)>) -> bool {
    forall|i: int, j: int|
        0 <= i < s.len() && 0 <= j < s.len() && i != j ==> #[trigger] s[i].0@ != #[trigger] s[j].0@
}

/// An item of the table: attribute values by attribute name.
#[derive(Debug, PartialEq, Eq)]
pub struct Item {
    entries: Vec<(String, AttributeValue)>,
}

proof fn lemma_entries_map_domain(s: Seq<(String, AttributeValue)>, k: Seq<char>)
    ensures
        entries_map(s).contains_key(k) <==> exists|i: int| 0 <= i < s.len() && #[trigger] s[i].0@ == k,
    decreases s.len(),
{
    if s.len() > 0 {
        lemma_entries_map_domain(s.drop_last(), k);
        if entries_map(s).contains_key(k) && s.last().0@ != k {
            let i = choose|i: int| 0 <= i < s.len() - 1 && #[trigger] s.drop_last()[i].0@ == k;
            assert(s[i].0@ == k);
        }
        if exists|i: int| 0 <= i < s.len() && #[trigger] s[i].0@ == k {
            let i = choose|i: int| 0 <= i < s.len() && #[trigger] s[i].0@ == k;
            if i < s.len() - 1 {
                assert(s.drop_last()[i].0@ == k);
            }
        }
    }
}

proof fn lemma_entries_map_value(s: Seq<(String, AttributeValue)>, i: int)
    requires
        distinct_names(s),
        0 <= i < s.len(),
    ensures
        entries_map(s).contains_key(s[i].0@),
        entries_map(s)[s[i].0@] == s[i].1,
    decreases s.len(),
{
    if i < s.len() - 1 {
        let t = s.drop_last();
        assert(t[i] == s[i]);
        assert(distinct_names(t)) by {
            assert forall|a: int, b: int|
                0 <= a < t.len() && 0 <= b < t.len() && a != b implies #[trigger] t[a].0@
                != #[trigger] t[b].0@ by {
                assert(t[a] == s[a] && t[b] == s[b]);
            }
        }
        lemma_entries_map_value(t, i);
        assert(s[i].0@ != s.last().0@);
    }
}

proof fn lemma_entries_map_update(s: Seq<(String, AttributeValue)>, i: int, e: (String, AttributeValue))
    requires
        0 <= i < s.len(),
        distinct_names(s),
        e.0@ == s[i].0@,
    ensures
        distinct_names(s.update(i, e)),
        entries_map(s.update(i, e)) == entries_map(s).insert(e.0@, e.1),
    decreases s.len(),
{
    let u = s.update(i, e);
    assert(distinct_names(u)) by {
        assert forall|a: int, b: int|
            0 <= a < u.len() && 0 <= b < u.len() && a != b implies #[trigger] u[a].0@
            != #[trigger] u[b].0@ by {
            assert(u[a].0@ == s[a].0@ && u[b].0@ == s[b].0@);
        }
    }
    if i == s.len() - 1 {
        assert(u.drop_last() =~= s.drop_last());
        assert(entries_map(u) =~= entries_map(s).insert(e.0@, e.1));
    } else {
        let t = s.drop_last();
        assert(distinct_names(t)) by {
            assert forall|a: int, b: int|
                0 <= a < t.len() && 0 <= b < t.len() && a != b implies #[trigger] t[a].0@
                != #[trigger] t[b].0@ by {
                assert(t[a] == s[a] && t[b] == s[b]);
            }
        }
        lemma_entries_map_update(t, i, e);
        assert(u.drop_last() =~= t.update(i, e));
        assert(s.last().0@ != e.0@);
        assert(entries_map(u) =~= entries_map(s).insert(e.0@, e.1));
    }
}

proof fn lemma_entries_map_remove(s: Seq<(String, AttributeValue)>, i: int)
    requires
        0 <= i < s.len(),
        distinct_names(s),
    ensures
        distinct_names(s.remove(i)),
        entries_map(s.remove(i)) == entries_map(s).remove(s[i].0@),
    decreases s.len(),
{
    let r = s.remove(i);
    assert(distinct_names(r)) by {
        assert forall|a: int, b: int|
            0 <= a < r.len() && 0 <= b < r.len() && a != b implies #[trigger] r[a].0@
            != #[trigger] r[b].0@ by {
            let a2 = if a < i { a } else { a + 1 };
            let b2 = if b < i { b } else { b + 1 };
            assert(r[a] == s[a2] && r[b] == s[b2]);
        }
    }
    let k = s[i].0@;
    if i == s.len() - 1 {
        assert(r =~= s.drop_last());
        assert(!entries_map(r).contains_key(k)) by {
            lemma_entries_map_domain(r, k);
            if exists|j: int| 0 <= j < r.len() && #[trigger] r[j].0@ == k {
                let j = choose|j: int| 0 <= j < r.len() && #[trigger] r[j].0@ == k;
                assert(r[j] == s[j]);
            }
        }
        assert(entries_map(r) =~= entries_map(s).remove(k));
    } else {
        let t = s.drop_last();
        assert(distinct_names(t)) by {
            assert forall|a: int, b: int|
                0 <= a < t.len() && 0 <= b < t.len() && a != b implies #[trigger] t[a].0@
                != #[trigger] t[b].0@ by {
                assert(t[a] == s[a] && t[b] == s[b]);
            }
        }
        lemma_entries_map_remove(t, i);
        assert(r.drop_last() =~= t.remove(i));
        assert(r.last() == s.last());
        assert(s.last().0@ != k);
        assert(entries_map(r) =~= entries_map(s).remove(k));
    }
}

impl View for Item {
    type V = Map<Seq<char>, AttributeValue>;

    closed spec fn view(&self) -> Map<Seq<char>, AttributeValue> {
        entries_map(self.entries@)
    }
}

impl Item {
    #[verifier::type_invariant]
    spec fn names_are_distinct(self) -> bool {
        distinct_names(self.entries@)
    }

    /// The empty item.
    pub fn new() -> (item: Item)
        ensures
            item@ == Map::<Seq<char>, AttributeValue>::empty(),
    {
        Item { entries: Vec::new() }
    }

    /// Whether the item has an attribute named `name`.
    pub fn contains_key(&self, name: &String) -> (r: bool)
        ensures
            r == self@.contains_key(name@),
    {
        proof {
            lemma_entries_map_domain(self.entries@, name@);
        }
        find_in(&self.entries, name).is_some()
    }

    /// The value of the attribute named `name`, if the item has one.
    pub fn get(&self, name: &String) -> (r: Option<&AttributeValue>)
        ensures
            match r {
                Some(v) => self@.contains_key(name@) && *v == self@[name@],
                None => !self@.contains_key(name@),
            },
    {
        proof {
            use_type_invariant(self);
            lemma_entries_map_domain(self.entries@, name@);
        }
        match find_in(&self.entries, name) {
            Some(i) => {
                proof {
                    lemma_entries_map_value(self.entries@, i as int);
                }
                Some(&self.entries[i].1)
            },
            None => None,
        }
    }

    /// Sets the attribute named `name` to `value`, in place of any value it had.
    pub fn insert(&mut self, name: String, value: AttributeValue)
        ensures
            final(self)@ == old(self)@.insert(name@, value),
    {
        proof {
            use_type_invariant(&*self);
            lemma_entries_map_domain(self.entries@, name@);
        }
        let mut entries: Vec<(String, AttributeValue)> = Vec::new();
        std::mem::swap(&mut entries, &mut self.entries);
        let ghost before = entries@;
        match find_in(&entries, &name) {
            Some(i) => {
                proof {
                    lemma_entries_map_update(before, i as int, (name, value));
                }
                entries[i] = (name, value);
            },
            None => {
                let ghost pushed = before.push((name, value));
                proof {
                    assert(pushed.drop_last() =~= before);
                    assert(distinct_names(pushed)) by {
                        assert forall|a: int, b: int|
                            0 <= a < pushed.len() && 0 <= b < pushed.len() && a != b implies
                            #[trigger] pushed[a].0@ != #[trigger] pushed[b].0@ by {
                            if a < before.len() && b < before.len() {
                                assert(pushed[a] == before[a] && pushed[b] == before[b]);
                            } else if a < before.len() {
                                assert(pushed[a] == before[a]);
                            } else {
                                assert(pushed[b] == before[b]);
                            }
                        }
                    }
                }
                entries.push((name, value));
            },
        }
        self.entries = entries;
    }

    /// Takes the attribute named `name` out of the item, giving back its value.
    pub fn remove(&mut self, name: &String) -> (r: Option<AttributeValue>)
        ensures
            final(self)@ == old(self)@.remove(name@),
            match r {
                Some(v) => old(self)@.contains_key(name@) && v == old(self)@[name@],
                None => !old(self)@.contains_key(name@),
            },
    {
        proof {
            use_type_invariant(&*self);
            lemma_entries_map_domain(self.entries@, name@);
        }
        let mut entries: Vec<(String, AttributeValue)> = Vec::new();
        std::mem::swap(&mut entries, &mut self.entries);
        let ghost before = entries@;
        let r = match find_in(&entries, &name) {
            Some(i) => {
                proof {
                    lemma_entries_map_value(before, i as int);
                    lemma_entries_map_remove(before, i as int);
                }
                let (_, v) = entries.remove(i);
                Some(v)
            },
            None => {
                proof {
                    assert(entries_map(before) =~= entries_map(before).remove(name@));
                }
                None
            },
        };
        self.entries = entries;
        r
    }

    /// The entries of the item, in the order the item keeps them.
    pub closed spec fn entry_seq(self) -> Seq<(String, AttributeValue)> {
        self.entries@
    }

    /// The entries of the item, each attribute name once.
    pub fn entries(&self) -> (r: &Vec<(String, AttributeValue)>)
        ensures
            distinct_names(r@),
            entries_map(r@) == self@,
            r@ == self.entry_seq(),
    {
        proof {
            use_type_invariant(self);
        }
        &self.entries
    }

    /// The entries of the item, each attribute name once.
    pub fn into_entries(self) -> (r: Vec<(String, AttributeValue)>)
        ensures
            distinct_names(r@),
            entries_map(r@) == self@,
    {
        proof {
            use_type_invariant(&self);
        }
        self.entries
    }
}

/// The index of the entry named `name` among `entries`, if there is one.
fn find_in(entries: &Vec<(String, AttributeValue)>, name: &String) -> (r: Option<usize>)
    ensures
        match r {
            Some(i) => i < entries@.len() && entries@[i as int].0@ == name@,
            None => forall|i: int| 0 <= i < entries@.len() ==> #[trigger] entries@[i].0@ != name@,
        },
{
    let mut i: usize = 0;
    while i < entries.len()
        invariant
            i <= entries@.len(),
            forall|j: int| 0 <= j < i ==> #[trigger] entries@[j].0@ != name@,
        decreases entries@.len() - i,
    {
        if entries[i].0 == *name {
            return Some(i);
        }
        i = i + 1;
    }
    None
}

/// The key of an item within a space: the address of what it holds.
#[derive(Debug, PartialEq, Eq, Clone)]
pub struct ItemKey(pub String);

impl View for ItemKey {
    type V = Seq<char>;

    open spec fn view(&self) -> Seq<char> {
        self.0@
    }
}

impl From<RequestId> for ItemKey {
    fn from(request_id: RequestId) -> (r: ItemKey) {
        ItemKey(request_id.0)
    }
}

impl FromSpecImpl<RequestId> for ItemKey {
    open spec fn obeys_from_spec() -> bool {
        true
    }

    open spec fn from_spec(request_id: RequestId) -> ItemKey {
        ItemKey(request_id.0)
    }
}

impl<'a> From<&'a RequestId> for ItemKey {
    fn from(request_id: &'a RequestId) -> (r: ItemKey) {
        ItemKey(request_id.0.clone())
    }
}

impl<'a> FromSpecImpl<&'a RequestId> for ItemKey {
    open spec fn obeys_from_spec() -> bool {
        true
    }

    open spec fn from_spec(request_id: &'a RequestId) -> ItemKey {
        ItemKey(request_id.0)
    }
}

impl From<String> for ItemKey {
    fn from(string: String) -> (r: ItemKey) {
        ItemKey(string)
    }
}

impl FromSpecImpl<String> for ItemKey {
    open spec fn obeys_from_spec() -> bool {
        true
    }

    open spec fn from_spec(string: String) -> ItemKey {
        ItemKey(string)
    }
}

impl From<ItemKey> for String {
    fn from(item_key: ItemKey) -> (r: String) {
        item_key.0
    }
}

impl FromSpecImpl<ItemKey> for String {
    open spec fn obeys_from_spec() -> bool {
        true
    }

    open spec fn from_spec(item_key: ItemKey) -> String {
        item_key.0
    }
}

impl<'a> From<&'a ItemKey> for String {
    fn from(item_key: &'a ItemKey) -> (r: String) {
        item_key.0.clone()
    }
}

impl<'a> FromSpecImpl<&'a ItemKey> for String {
    open spec fn obeys_from_spec() -> bool {
        true
    }

    open spec fn from_spec(item_key: &'a ItemKey) -> String {
        item_key.0
    }
}

impl From<AgentAddress> for ItemKey {
    fn from(agent_address: AgentAddress) -> (r: ItemKey) {
        ItemKey(agent_address.0)
    }
}

impl FromSpecImpl<AgentAddress> for ItemKey {
    open spec fn obeys_from_spec() -> bool {
        true
    }

    open spec fn from_spec(agent_address: AgentAddress) -> ItemKey {
        ItemKey(agent_address.0)
    }
}

impl<'a> From<&'a AgentAddress> for ItemKey {
    fn from(agent_address: &'a AgentAddress) -> (r: ItemKey) {
        ItemKey(agent_address.0.clone())
    }
}

impl<'a> FromSpecImpl<&'a AgentAddress> for ItemKey {
    open spec fn obeys_from_spec() -> bool {
        true
    }

    open spec fn from_spec(agent_address: &'a AgentAddress) -> ItemKey {
        ItemKey(agent_address.0)
    }
}

impl From<EntryAspectData> for ItemKey {
    fn from(entry_aspect_data: EntryAspectData) -> (r: ItemKey) {
        ItemKey(entry_aspect_data.aspect_address)
    }
}

impl FromSpecImpl<EntryAspectData> for ItemKey {
    open spec fn obeys_from_spec() -> bool {
        true
    }

    open spec fn from_spec(entry_aspect_data: EntryAspectData) -> ItemKey {
        ItemKey(entry_aspect_data.aspect_address)
    }
}

impl<'a> From<&'a EntryAspectData> for ItemKey {
    fn from(entry_aspect_data: &'a EntryAspectData) -> (r: ItemKey) {
        ItemKey(entry_aspect_data.aspect_address.clone())
    }
}

impl<'a> FromSpecImpl<&'a EntryAspectData> for ItemKey {
    open spec fn obeys_from_spec() -> bool {
        true
    }

    open spec fn from_spec(entry_aspect_data: &'a EntryAspectData) -> ItemKey {
        ItemKey(entry_aspect_data.aspect_address)
    }
}

impl From<AspectAddress> for ItemKey {
    fn from(aspect_address: AspectAddress) -> (r: ItemKey) {
        ItemKey(aspect_address.0)
    }
}

impl FromSpecImpl<AspectAddress> for ItemKey {
    open spec fn obeys_from_spec() -> bool {
        true
    }

    open spec fn from_spec(aspect_address: AspectAddress) -> ItemKey {
        ItemKey(aspect_address.0)
    }
}

impl<'a> From<&'a AspectAddress> for ItemKey {
    fn from(aspect_address: &'a AspectAddress) -> (r: ItemKey) {
        ItemKey(aspect_address.0.clone())
    }
}

impl<'a> FromSpecImpl<&'a AspectAddress> for ItemKey {
    open spec fn obeys_from_spec() -> bool {
        true
    }

    open spec fn from_spec(aspect_address: &'a AspectAddress) -> ItemKey {
        ItemKey(aspect_address.0)
    }
}

impl From<EntryAddress> for ItemKey {
    fn from(entry_address: EntryAddress) -> (r: ItemKey) {
        ItemKey(entry_address.0)
    }
}

impl FromSpecImpl<EntryAddress> for ItemKey {
    open spec fn obeys_from_spec() -> bool {
        true
    }

    open spec fn from_spec(entry_address: EntryAddress) -> ItemKey {
        ItemKey(entry_address.0)
    }
}

impl<'a> From<&'a EntryAddress> for ItemKey {
    fn from(entry_address: &'a EntryAddress) -> (r: ItemKey) {
        ItemKey(entry_address.0.clone())
    }
}

impl<'a> FromSpecImpl<&'a EntryAddress> for ItemKey {
    open spec fn obeys_from_spec() -> bool {
        true
    }

    open spec fn from_spec(entry_address: &'a EntryAddress) -> ItemKey {
        ItemKey(entry_address.0)
    }
}

impl From<crate::entry::EntryAddress> for ItemKey {
    fn from(entry_address: crate::entry::EntryAddress) -> (r: ItemKey) {
        ItemKey(entry_address.0)
    }
}

impl FromSpecImpl<crate::entry::EntryAddress> for ItemKey {
    open spec fn obeys_from_spec() -> bool {
        true
    }

    open spec fn from_spec(entry_address: crate::entry::EntryAddress) -> ItemKey {
        ItemKey(entry_address.0)
    }
}

impl<'a> From<&'a crate::entry::EntryAddress> for ItemKey {
    fn from(entry_address: &'a crate::entry::EntryAddress) -> (r: ItemKey) {
        ItemKey(entry_address.0.clone())
    }
}

impl<'a> FromSpecImpl<&'a crate::entry::EntryAddress> for ItemKey {
    open spec fn obeys_from_spec() -> bool {
        true
    }

    open spec fn from_spec(entry_address: &'a crate::entry::EntryAddress) -> ItemKey {
        ItemKey(entry_address.0)
    }
}

/// The partition key of the item at `address` in a space: the network id, the
/// space hash and the address, separated by colons.
pub open spec fn partition_key_text(space: SpaceView, address: Seq<char>) -> Seq<char> {
    space.network_id + ":"@ + space.space_hash + ":"@ + address
}

/// `m` is keyed as the item at `address` in `space`: its partition key attribute
/// is the string that names it.
pub open spec fn keyed_as(m: Map<Seq<char>, AttributeValue>, space: SpaceView, address: Seq<char>) -> bool {
    &&& m.contains_key(PARTITION_KEY@)
    &&& holds_string(m[PARTITION_KEY@], partition_key_text(space, address))
}

/// The partition key of the item at `address` in `space`.
pub fn partition_key(space: &Space, address: &String) -> (r: String)
    ensures
        r@ == partition_key_text(space@, address@),
{
    space.network_id().as_string().clone().concat(":").concat(space.space_hash().as_str()).concat(
        ":",
    ).concat(address.as_str())
}

/// The item that holds only the key of `item_key` in `space`.
pub fn keyed_item(space: &Space, item_key: &ItemKey) -> (r: Item)
    ensures
        r@.dom() == set![PARTITION_KEY@],
        keyed_as(r@, space@, item_key@),
{
    let mut item = Item::new();
    item.insert(
        String::from_str(PARTITION_KEY),
        string_attribute_value(&partition_key(space, &item_key.0)),
    );
    assert(item@.dom() =~= set![PARTITION_KEY@]);
    item
}

/// Within a space, the partition key names the address: two addresses with the
/// same partition key are the same address, so items at different addresses
/// never overwrite each other.
pub proof fn lemma_partition_key_injective(space: SpaceView, a: Seq<char>, b: Seq<char>)
    requires
        partition_key_text(space, a) == partition_key_text(space, b),
    ensures
        a == b,
{
    let prefix = space.network_id + ":"@ + space.space_hash + ":"@;
    assert(partition_key_text(space, a) =~= prefix + a);
    assert(partition_key_text(space, b) =~= prefix + b);
    assert((prefix + a).len() == (prefix + b).len());
    assert forall|i: int| 0 <= i < a.len() implies a[i] == b[i] by {
        assert((prefix + a)[prefix.len() + i] == a[i]);
        assert((prefix + b)[prefix.len() + i] == b[i]);
    }
    assert(a =~= b);
}

} // verus!
