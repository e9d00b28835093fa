//! Reading entry aspects back.
use crate::aspect::{AspectAddress, EntryAddress};
use crate::data_types::{copy_bytes, EntryAspectData, EntryAspectDataView};
use crate::decimal::{lemma_parse_decimal, parse_u64, parse_u64_spec};
use crate::dht::bbdht::dynamodb::api::aspect::write::{aspect_addresses, is_aspect_item, is_aspect_list_update};
use crate::dht::bbdht::dynamodb::api::agent::inbox::reads_item;
use crate::dht::bbdht::dynamodb::api::item::read::get_item_from_space;
use crate::dht::bbdht::dynamodb::api::item::text::{item_text, render_item};
use crate::dht::bbdht::dynamodb::api::item::{Item, ItemKey};
use crate::dht::bbdht::dynamodb::store::{adds_string_set, string_set_of};
use crate::dht::bbdht::dynamodb::request::{
    DbReply, DbRequest, GetItemInput, PutItemInput, ScanInput, ScanOutput, Step, UpdateItemInput,
};
use crate::dht::bbdht::dynamodb::schema::cas::{
    ASPECT_ADDRESS_KEY, ASPECT_KEY, ASPECT_LIST_KEY, ASPECT_PUBLISH_TS_KEY, ASPECT_TYPE_HINT_KEY,
    lemma_attribute_name_lengths, ITEM_KEY, PARTITION_KEY,
};
use crate::dht::bbdht::dynamodb::schema::AttributeValue;
use crate::dht::bbdht::error::{error_of, BbDhtError, BbDhtResult, DbError};
use crate::space::{Space, SpaceView};
use vstd::prelude::*;

verus! {

/// The message of the error for an item that lacks the attribute `key`: the
/// key, then the rendering `text` of the item.
pub open spec fn missing_key_message(key: Seq<char>, text: Seq<char>) -> Seq<char> {
    "Key not present in hashmap! key="@ + key + ", hashmap="@ + text
}

/// The value of the attribute `key` of `item`, or an error that names the key
/// and renders the item.
pub fn get_or_err<'a>(item: &'a Item, key: &str) -> (r: BbDhtResult<&'a AttributeValue>)
    ensures
        item@.contains_key(key@) ==> (r matches Ok(v) && *v == item@[key@]),
        !item@.contains_key(key@) ==> (r matches Err(BbDhtError::MissingData(m)) && m@
            == missing_key_message(key@, item_text(*item))),
{
    match item.get(&String::from_str(key)) {
        Some(v) => Ok(v),
        None => {
            let text = render_item(item);
            Err(
                BbDhtError::MissingData(
                    String::from_str("Key not present in hashmap! key=").concat(key).concat(
                        ", hashmap=",
                    ).concat(text.as_str()),
                ),
            )
        },
    }
}

/// What reading an item gives: a value, or an error of one of two kinds.
pub enum Reading<T> {
    Value(T),
    MissingData(Seq<char>),
    ParseError(Seq<char>),
}

/// `r` is what `reading` says, the value taken by `view`.
pub open spec fn result_reads<T, V>(r: BbDhtResult<T>, reading: Reading<V>, view: spec_fn(T) -> V) -> bool {
    match reading {
        Reading::Value(v) => r matches Ok(x) && view(x) == v,
        Reading::MissingData(m) => r matches Err(BbDhtError::MissingData(x)) && x@ == m,
        Reading::ParseError(m) => r matches Err(BbDhtError::ParseError(x)) && x@ == m,
    }
}

/// What reading an aspect out of the item `m` gives. The attributes are read in
/// the order address, bytes, publication time, type hint; the first that is
/// missing, or that holds no value of its type, is the error; a publication time
/// that is not the decimal text of a `u64` is a parse error.
pub open spec fn aspect_reading(m: Map<Seq<char>, AttributeValue>, text: Seq<char>) -> Reading<EntryAspectDataView> {
    if !m.contains_key(ASPECT_ADDRESS_KEY@) {
        Reading::MissingData(missing_key_message(ASPECT_ADDRESS_KEY@, text))
    } else if m[ASPECT_ADDRESS_KEY@].s is None {
        Reading::MissingData("Missing aspect_address: "@ + text)
    } else if !m.contains_key(ASPECT_KEY@) {
        Reading::MissingData(missing_key_message(ASPECT_KEY@, text))
    } else if m[ASPECT_KEY@].b is None {
        Reading::MissingData("Missing aspect: "@ + text)
    } else if !m.contains_key(ASPECT_PUBLISH_TS_KEY@) {
        Reading::MissingData(missing_key_message(ASPECT_PUBLISH_TS_KEY@, text))
    } else if m[ASPECT_PUBLISH_TS_KEY@].n is None {
        Reading::MissingData("Missing publish_ts: "@ + text)
    } else if parse_u64_spec(m[ASPECT_PUBLISH_TS_KEY@].n->0@) is None {
        Reading::ParseError("publish_ts is not a u64: "@ + m[ASPECT_PUBLISH_TS_KEY@].n->0@)
    } else if !m.contains_key(ASPECT_TYPE_HINT_KEY@) {
        Reading::MissingData(missing_key_message(ASPECT_TYPE_HINT_KEY@, text))
    } else if m[ASPECT_TYPE_HINT_KEY@].s is None {
        Reading::MissingData("Missing type_hint: "@ + text)
    } else {
        Reading::Value(
            EntryAspectDataView {
                aspect_address: m[ASPECT_ADDRESS_KEY@].s->0@,
                aspect: m[ASPECT_KEY@].b->0@,
                publish_ts: parse_u64_spec(m[ASPECT_PUBLISH_TS_KEY@].n->0@)->0,
                type_hint: m[ASPECT_TYPE_HINT_KEY@].s->0@,
            },
        )
    }
}

/// The aspect that `item` stores.
pub fn try_aspect_from_item(item: Item) -> (r: BbDhtResult<EntryAspectData>)
    ensures
        result_reads(r, aspect_reading(item@, item_text(item)), |a: EntryAspectData| a@),
{
    let aspect_address = match &get_or_err(&item, ASPECT_ADDRESS_KEY)?.s {
        Some(address) => address.clone(),
        None => {
            return Err(BbDhtError::MissingData(String::from_str("Missing aspect_address: ").concat(render_item(&item).as_str())));
        },
    };
    let aspect = match &get_or_err(&item, ASPECT_KEY)?.b {
        Some(binary_data) => copy_bytes(binary_data),
        None => {
            return Err(BbDhtError::MissingData(String::from_str("Missing aspect: ").concat(render_item(&item).as_str())));
        },
    };
    let publish_ts = match &get_or_err(&item, ASPECT_PUBLISH_TS_KEY)?.n {
        Some(publish_ts) => match parse_u64(publish_ts.as_str()) {
            Some(v) => v,
            None => {
                return Err(
                    BbDhtError::ParseError(
                        String::from_str("publish_ts is not a u64: ").concat(publish_ts.as_str()),
                    ),
                );
            },
        },
        None => {
            return Err(BbDhtError::MissingData(String::from_str("Missing publish_ts: ").concat(render_item(&item).as_str())));
        },
    };
    let type_hint = match &get_or_err(&item, ASPECT_TYPE_HINT_KEY)?.s {
        Some(type_hint) => type_hint.clone(),
        None => {
            return Err(BbDhtError::MissingData(String::from_str("Missing type_hint: ").concat(render_item(&item).as_str())));
        },
    };
    Ok(EntryAspectData { aspect_address, aspect, publish_ts, type_hint })
}

/// An aspect stored by `put_aspect` reads back as the same aspect: the item that
/// stores an aspect in a space gives that aspect back, whatever the space.
pub proof fn lemma_aspect_round_trip(m: Map<Seq<char>, AttributeValue>, space: SpaceView, aspect: EntryAspectDataView)
    requires
        is_aspect_item(m, space, aspect),
    ensures
        forall|text: Seq<char>| #[trigger] aspect_reading(m, text) == Reading::Value(aspect),
{
    lemma_parse_decimal(aspect.publish_ts);
}

/// What `get_aspect` reads back of what `put_aspect` writes. The read asks the
/// table that the write went to for the partition key that the written item is
/// stored under; and that item, given back, reads as the aspect that was written.
pub proof fn lemma_get_aspect_after_put_aspect(
    space: SpaceView,
    aspect: EntryAspectDataView,
    put: PutItemInput,
    get: GetItemInput,
)
    requires
        put.table_name@ == space.table_name,
        is_aspect_item(put.item@, space, aspect),
        reads_item(get, space, aspect.aspect_address),
    ensures
        get.table_name@ == put.table_name@,
        get.key@[PARTITION_KEY@].s->0@ == put.item@[PARTITION_KEY@].s->0@,
        forall|r: BbDhtResult<Option<EntryAspectData>>|
            #[trigger] aspect_reply_reads(r, Ok(Some(put.item))) ==> (r matches Ok(Some(x)) && x@ == aspect),
{
    lemma_aspect_round_trip(put.item@, space, aspect);
}

/// Reading the aspects of an entry starts where publishing them writes: the
/// read of the entry asks the table that the aspect list update went to for the
/// partition key of the updated item. As the database applies the update (the
/// ADD of the aspects' addresses to the aspect list, then the SET of the item
/// key), the entry's aspect list then lists, each once, the addresses it
/// listed before and the addresses of the published aspects.
pub proof fn lemma_entry_aspects_after_update(
    space: SpaceView,
    entry_address: Seq<char>,
    aspect_list: Seq<EntryAspectData>,
    update: UpdateItemInput,
    get: GetItemInput,
    before: Option<Map<Seq<char>, AttributeValue>>,
    added: Map<Seq<char>, AttributeValue>,
    entry: Map<Seq<char>, AttributeValue>,
)
    requires
        is_aspect_list_update(update, space, entry_address, aspect_list),
        reads_item(get, space, entry_address),
        adds_string_set(before, update.key@, ASPECT_LIST_KEY@, aspect_addresses(aspect_list), added),
        entry == added.insert(ITEM_KEY@, update.expression_attribute_values->0@[":item"@]),
    ensures
        get.table_name@ == update.table_name@,
        get.key@[PARTITION_KEY@].s->0@ == update.key@[PARTITION_KEY@].s->0@,
        entry.contains_key(ASPECT_LIST_KEY@) && entry[ASPECT_LIST_KEY@].ss is Some,
        forall|text: Seq<char>|
            #[trigger] aspect_list_reading(entry, text) == Reading::Value(entry[ASPECT_LIST_KEY@].ss->0.deep_view()),
        entry[ASPECT_LIST_KEY@].ss->0.deep_view().no_duplicates(),
        entry[ASPECT_LIST_KEY@].ss->0.deep_view().to_set() == string_set_of(before, ASPECT_LIST_KEY@)
            + aspect_addresses(aspect_list).to_set(),
{
    lemma_attribute_name_lengths();
    assert(entry[ASPECT_LIST_KEY@] == added[ASPECT_LIST_KEY@]);
    let listed = entry[ASPECT_LIST_KEY@].ss->0.deep_view();
    assert(listed.to_set() =~= string_set_of(Some(added), ASPECT_LIST_KEY@));
}

/// Publishing the aspects of an entry that was never published, then reading
/// them back. The aspects have distinct addresses, and each is stored at its
/// address as `put_aspect` stores it. Then the entry's aspect list lists each
/// published address once (in some order, as the database keeps a set), and
/// reading the item at each address gives the aspect published there: the
/// aspects read back are the published ones, each once.
pub proof fn lemma_published_aspects_read_back(
    space: SpaceView,
    entry_address: Seq<char>,
    aspect_list: Seq<EntryAspectData>,
    update: UpdateItemInput,
    added: Map<Seq<char>, AttributeValue>,
    entry: Map<Seq<char>, AttributeValue>,
    stored: spec_fn(Seq<char>) -> Map<Seq<char>, AttributeValue>,
)
    requires
        aspect_addresses(aspect_list).no_duplicates(),
        is_aspect_list_update(update, space, entry_address, aspect_list),
        adds_string_set(None, update.key@, ASPECT_LIST_KEY@, aspect_addresses(aspect_list), added),
        entry == added.insert(ITEM_KEY@, update.expression_attribute_values->0@[":item"@]),
        forall|i: int|
            0 <= i < aspect_list.len() ==> is_aspect_item(
                #[trigger] stored(aspect_list[i].aspect_address@),
                space,
                aspect_list[i]@,
            ),
    ensures
        forall|text: Seq<char>|
            #[trigger] aspect_list_reading(entry, text) == Reading::Value(entry[ASPECT_LIST_KEY@].ss->0.deep_view()),
        entry[ASPECT_LIST_KEY@].ss->0.deep_view().no_duplicates(),
        entry[ASPECT_LIST_KEY@].ss->0.deep_view().len() == aspect_list.len(),
        entry[ASPECT_LIST_KEY@].ss->0.deep_view().to_set() == aspect_addresses(aspect_list).to_set(),
        forall|i: int, text: Seq<char>|
            0 <= i < aspect_list.len() ==> #[trigger] aspect_reading(stored(aspect_list[i].aspect_address@), text)
                == Reading::Value(aspect_list[i]@),
{
    lemma_attribute_name_lengths();
    assert(entry[ASPECT_LIST_KEY@] == added[ASPECT_LIST_KEY@]);
    let listed = entry[ASPECT_LIST_KEY@].ss->0.deep_view();
    let addresses = aspect_addresses(aspect_list);
    assert(listed.to_set() =~= string_set_of(Some(added), ASPECT_LIST_KEY@));
    assert(listed.to_set() =~= addresses.to_set());
    listed.unique_seq_to_set();
    addresses.unique_seq_to_set();
    assert forall|i: int, text: Seq<char>|
        0 <= i < aspect_list.len() implies #[trigger] aspect_reading(stored(aspect_list[i].aspect_address@), text)
            == Reading::Value(aspect_list[i]@) by {
        lemma_aspect_round_trip(stored(aspect_list[i].aspect_address@), space, aspect_list[i]@);
    }
}

/// What reading the aspect list out of the item `m` gives: the addresses in its
/// string set, or an error when the attribute is missing or holds no string set.
pub open spec fn aspect_list_reading(m: Map<Seq<char>, AttributeValue>, text: Seq<char>) -> Reading<Seq<Seq<char>>> {
    if !m.contains_key(ASPECT_LIST_KEY@) {
        Reading::MissingData(missing_key_message(ASPECT_LIST_KEY@, text))
    } else if m[ASPECT_LIST_KEY@].ss is None {
        Reading::MissingData("Missing aspect_list: "@ + text)
    } else {
        Reading::Value(m[ASPECT_LIST_KEY@].ss->0.deep_view())
    }
}

/// The views of a list of aspect addresses.
pub open spec fn addresses_view(s: Seq<AspectAddress>) -> Seq<Seq<char>> {
    s.map_values(|a: AspectAddress| a@)
}

/// The views of a list of aspects.
pub open spec fn aspects_view(s: Seq<EntryAspectData>) -> Seq<EntryAspectDataView> {
    s.map_values(|a: EntryAspectData| a@)
}

/// The aspect addresses that an entry's item lists.
pub fn try_aspect_list_from_item(item: Item) -> (r: BbDhtResult<Vec<AspectAddress>>)
    ensures
        result_reads(r, aspect_list_reading(item@, item_text(item)), |v: Vec<AspectAddress>| addresses_view(v@)),
{
    match &get_or_err(&item, ASPECT_LIST_KEY)?.ss {
        Some(addresses) => {
            let mut r: Vec<AspectAddress> = Vec::new();
            let mut i: usize = 0;
            while i < addresses.len()
                invariant
                    i <= addresses@.len(),
                    r@.len() == i,
                    forall|j: int| 0 <= j < i ==> (#[trigger] r@[j])@ == addresses@[j]@,
                decreases addresses@.len() - i,
            {
                r.push(AspectAddress(addresses[i].clone()));
                i = i + 1;
            }
            assert(addresses_view(r@) =~= addresses.deep_view());
            Ok(r)
        },
        None => Err(BbDhtError::MissingData(String::from_str("Missing aspect_list: ").concat(render_item(&item).as_str()))),
    }
}

/// The request that reads the aspect at `aspect_address` in `space`.
pub fn get_aspect(space: &Space, aspect_address: &AspectAddress) -> (r: GetItemInput)
    ensures
        reads_item(r, space@, aspect_address@),
{
    get_item_from_space(space, &ItemKey(aspect_address.0.clone()))
}

/// `r` is what reading an aspect gives, from the reply to its read: no aspect
/// when there is no item, the aspect the item stores, or the error.
pub open spec fn aspect_reply_reads(r: BbDhtResult<Option<EntryAspectData>>, reply: Result<Option<Item>, DbError>) -> bool {
    match reply {
        Err(e) => r == Err::<Option<EntryAspectData>, BbDhtError>(error_of(e)),
        Ok(None) => r == Ok::<Option<EntryAspectData>, BbDhtError>(None),
        Ok(Some(item)) => match aspect_reading(item@, item_text(item)) {
            Reading::Value(a) => r matches Ok(Some(x)) && x@ == a,
            Reading::MissingData(m) => r matches Err(BbDhtError::MissingData(x)) && x@ == m,
            Reading::ParseError(m) => r matches Err(BbDhtError::ParseError(x)) && x@ == m,
        },
    }
}

/// The aspect, if there is one, from the reply to its read.
pub fn get_aspect_reply(reply: Result<Option<Item>, DbError>) -> (r: BbDhtResult<Option<EntryAspectData>>)
    ensures
        aspect_reply_reads(r, reply),
{
    match reply {
        Ok(get_output) => match get_output {
            Some(aspect_item) => Ok(Some(try_aspect_from_item(aspect_item)?)),
            None => Ok(None),
        },
        Err(err) => Err(BbDhtError::from(err)),
    }
}

/// Where reading the aspects of an entry stands.
pub enum EntryAspectsPhase {
    /// Reading the entry's item.
    ReadingEntry,
    /// Reading the aspects: their addresses, the index of the one being read,
    /// and the aspects read so far.
    ReadingAspects(Vec<AspectAddress>, usize, Vec<EntryAspectData>),
    /// Finished.
    Finished,
}

/// Reading the aspects of an entry.
pub struct GetEntryAspects {
    pub space: Space,
    pub phase: EntryAspectsPhase,
}

/// Reads the aspects of the entry at `entry_address`: the entry's item lists
/// the aspects' addresses; each is read in turn. An entry with no item has no
/// aspects. A listed aspect that has no item, or an item that does not read as
/// an aspect, ends the reading with an error.
pub fn get_entry_aspects(space: &Space, entry_address: &crate::entry::EntryAddress) -> (r: (GetEntryAspects, DbRequest))
    ensures
        r.0.space@ == space@,
        r.0.phase is ReadingEntry,
        r.1 matches DbRequest::GetItem(g) && reads_item(g, space@, entry_address@),
{
    let get = GetEntryAspects { space: space.copy(), phase: EntryAspectsPhase::ReadingEntry };
    let request = DbRequest::GetItem(get_item_from_space(space, &ItemKey(entry_address.0.clone())));
    (get, request)
}

impl GetEntryAspects {
    /// The phase's index is within its list of addresses.
    pub open spec fn wf(&self) -> bool {
        match self.phase {
            EntryAspectsPhase::ReadingAspects(addresses, i, found) => i < addresses@.len() && found@.len() == i,
            _ => true,
        }
    }

    /// Whether `reply` answers the request this operation waits for.
    pub open spec fn awaits(&self, reply: DbReply) -> bool {
        &&& !(self.phase is Finished)
        &&& reply is GetItem
    }

    /// The next step after a reply.
    pub fn on_reply(self, reply: DbReply) -> (r: (GetEntryAspects, Step<BbDhtResult<Vec<EntryAspectData>>>))
        requires
            self.wf(),
            self.awaits(reply),
        ensures
            r.0.space@ == self.space@,
            r.0.wf(),
            match self.phase {
                EntryAspectsPhase::ReadingEntry => match reply->GetItem_0 {
                    Err(e) => r.0.phase is Finished && r.1 == Step::<BbDhtResult<Vec<EntryAspectData>>>::Done(Err(error_of(e))),
                    Ok(None) => r.0.phase is Finished && (r.1 matches Step::Done(Ok(v)) && v@.len() == 0),
                    Ok(Some(item)) => match aspect_list_reading(item@, item_text(item)) {
                        Reading::Value(addresses) => if addresses.len() == 0 {
                            r.0.phase is Finished && (r.1 matches Step::Done(Ok(v)) && v@.len() == 0)
                        } else {
                            (r.0.phase matches EntryAspectsPhase::ReadingAspects(a, i, found)
                                && addresses_view(a@) == addresses && i == 0 && found@.len() == 0)
                                && (r.1 matches Step::Send(DbRequest::GetItem(g)) && reads_item(g, self.space@, addresses[0]))
                        },
                        Reading::MissingData(m) => r.0.phase is Finished && (r.1 matches Step::Done(Err(BbDhtError::MissingData(x))) && x@ == m),
                        Reading::ParseError(m) => false,
                    },
                },
                EntryAspectsPhase::ReadingAspects(addresses, i, found) => match reply->GetItem_0 {
                    Err(e) => r.0.phase is Finished && r.1 == Step::<BbDhtResult<Vec<EntryAspectData>>>::Done(Err(error_of(e))),
                    Ok(None) => r.0.phase is Finished && (r.1 matches Step::Done(Err(BbDhtError::MissingData(x)))
                        && x@ == "Missing entry aspect data: "@ + addresses@[i as int]@),
                    Ok(Some(item)) => match aspect_reading(item@, item_text(item)) {
                        Reading::Value(a) => if i + 1 < addresses@.len() {
                            (r.0.phase matches EntryAspectsPhase::ReadingAspects(a2, i2, found2)
                                && addresses_view(a2@) == addresses_view(addresses@) && i2 == i + 1
                                && aspects_view(found2@) == aspects_view(found@).push(a))
                                && (r.1 matches Step::Send(DbRequest::GetItem(g)) && reads_item(g, self.space@, addresses@[i + 1]@))
                        } else {
                            r.0.phase is Finished && (r.1 matches Step::Done(Ok(v)) && aspects_view(v@) == aspects_view(found@).push(a))
                        },
                        Reading::MissingData(m) => r.0.phase is Finished && (r.1 matches Step::Done(Err(BbDhtError::MissingData(x))) && x@ == m),
                        Reading::ParseError(m) => r.0.phase is Finished && (r.1 matches Step::Done(Err(BbDhtError::ParseError(x))) && x@ == m),
                    },
                },
                EntryAspectsPhase::Finished => false,
            },
    {
        let mut this = self;
        let mut phase = EntryAspectsPhase::Finished;
        std::mem::swap(&mut phase, &mut this.phase);
        assert(phase == self.phase);
        let read = match reply {
            DbReply::GetItem(g) => g,
            _ => vstd::pervasive::unreached(),
        };
        match phase {
            EntryAspectsPhase::ReadingEntry => match read {
                Err(e) => (this, Step::Done(Err(BbDhtError::from(e)))),
                Ok(None) => (this, Step::Done(Ok(Vec::new()))),
                Ok(Some(item)) => match try_aspect_list_from_item(item) {
                    Err(err) => (this, Step::Done(Err(err))),
                    Ok(addresses) => {
                        if addresses.len() == 0 {
                            (this, Step::Done(Ok(Vec::new())))
                        } else {
                            let request = DbRequest::GetItem(get_aspect(&this.space, &addresses[0]));
                            proof {
                                assert(addresses_view(addresses@)[0] == addresses@[0]@);
                            }
                            this.phase = EntryAspectsPhase::ReadingAspects(addresses, 0, Vec::new());
                            (this, Step::Send(request))
                        }
                    },
                },
            },
            EntryAspectsPhase::ReadingAspects(addresses, i, found) => {
                let mut found = found;
                match get_aspect_reply(read) {
                    Err(err) => (this, Step::Done(Err(err))),
                    Ok(None) => (this, Step::Done(Err(BbDhtError::MissingData(
                        String::from_str("Missing entry aspect data: ").concat(addresses[i].0.as_str()),
                    )))),
                    Ok(Some(aspect)) => {
                        let ghost before = found@;
                        let ghost a = aspect@;
                        found.push(aspect);
                        proof {
                            assert(aspects_view(found@) =~= aspects_view(before).push(a));
                        }
                        if addresses.len() - i > 1 {
                            let request = DbRequest::GetItem(get_aspect(&this.space, &addresses[i + 1]));
                            this.phase = EntryAspectsPhase::ReadingAspects(addresses, i + 1, found);
                            (this, Step::Send(request))
                        } else {
                            (this, Step::Done(Ok(found)))
                        }
                    },
                }
            },
            EntryAspectsPhase::Finished => vstd::pervasive::unreached(),
        }
    }
}

/// The texts of `fields`, separated by `sep`.
pub open spec fn joined(fields: Seq<Seq<char>>, sep: Seq<char>) -> Seq<char>
    decreases fields.len(),
{
    if fields.len() == 0 {
        Seq::empty()
    } else if fields.len() == 1 {
        fields[0]
    } else {
        joined(fields.drop_last(), sep) + sep + fields.last()
    }
}

/// The projection expression that asks for `fields`: their names, separated
/// by a comma and a space.
pub fn projection_expression(fields: Vec<&str>) -> (r: Option<String>)
    ensures
        r matches Some(e) && e@ == joined(fields@.map_values(|f: &str| f@), ", "@),
{
    let ghost names = fields@.map_values(|f: &str| f@);
    let mut expression = String::new();
    let mut i: usize = 0;
    while i < fields.len()
        invariant
            i <= fields@.len(),
            names == fields@.map_values(|f: &str| f@),
            expression@ == joined(names.subrange(0, i as int), ", "@),
        decreases fields@.len() - i,
    {
        proof {
            let prefix = names.subrange(0, i + 1);
            assert(prefix.drop_last() =~= names.subrange(0, i as int));
            assert(prefix.last() == fields@[i as int]@);
            if i == 0 {
                assert(prefix =~= seq![fields@[0]@]);
            }
        }
        if i != 0 {
            expression.append(", ");
        }
        expression.append(fields[i]);
        proof {
            if i == 0 {
                assert(expression@ =~= joined(names.subrange(0, 1), ", "@));
            }
        }
        i = i + 1;
    }
    assert(names.subrange(0, fields@.len() as int) =~= names);
    Some(expression)
}

/// The request for a page of the scan of the space's table for entries' aspect
/// lists: a consistent scan that asks for the item key and the aspect list,
/// starting after `exclusive_start_key` when there is one.
pub fn scan_aspects(space: &Space, exclusive_start_key: Option<Item>) -> (r: ScanInput)
    ensures
        r.table_name@ == space@.table_name,
        r.consistent_read == Some(true),
        r.projection_expression matches Some(e) && e@ == ITEM_KEY@ + ", "@ + ASPECT_LIST_KEY@,
        r.exclusive_start_key == exclusive_start_key,
{
    let fields = vec![ITEM_KEY, ASPECT_LIST_KEY];
    let ghost names = seq![ITEM_KEY@, ASPECT_LIST_KEY@];
    proof {
        assert(fields@.map_values(|f: &str| f@) =~= names);
        assert(names.drop_last() =~= seq![ITEM_KEY@]);
        assert(joined(seq![ITEM_KEY@], ", "@) == ITEM_KEY@);
        assert(joined(names, ", "@) == ITEM_KEY@ + ", "@ + ASPECT_LIST_KEY@);
    }
    let projection = projection_expression(fields);
    ScanInput {
        consistent_read: Some(true),
        table_name: space.connection().table_name().as_string().clone(),
        projection_expression: projection,
        exclusive_start_key,
    }
}

/// The entries' aspect lists that a scan found: for each entry, its item key and
/// its aspect addresses, both as text; each entry once.
pub type AspectAddressMap = Vec<(String, Vec<String>)>;

/// What a scanned item says of an entry: its key and its aspect list, when it
/// has an item key that is a string and an aspect list that is a string set.
pub open spec fn scanned_entry(m: Map<Seq<char>, AttributeValue>) -> Option<(Seq<char>, Seq<Seq<char>>)> {
    if m.contains_key(ITEM_KEY@) && m[ITEM_KEY@].s is Some && m.contains_key(ASPECT_LIST_KEY@)
        && m[ASPECT_LIST_KEY@].ss is Some {
        Some((m[ITEM_KEY@].s->0@, m[ASPECT_LIST_KEY@].ss->0.deep_view()))
    } else {
        None
    }
}

/// The entries that a page of scanned items says, by entry key: items that say
/// none are left out, and of two items that say the same entry the later wins.
pub open spec fn scanned_map(items: Seq<Item>) -> Map<Seq<char>, Seq<Seq<char>>>
    decreases items.len(),
{
    if items.len() == 0 {
        Map::empty()
    } else {
        match scanned_entry(items.last()@) {
            Some(e) => scanned_map(items.drop_last()).insert(e.0, e.1),
            None => scanned_map(items.drop_last()),
        }
    }
}

/// The map that a list of (key, value) pairs stands for; a later pair wins.
pub open spec fn pairs_map(s: Seq<(Seq<char>, Seq<Seq<char>>)>) -> Map<Seq<char>, Seq<Seq<char>>>
    decreases s.len(),
{
    if s.len() == 0 {
        Map::empty()
    } else {
        pairs_map(s.drop_last()).insert(s.last().0, s.last().1)
    }
}

/// No key occurs twice among the pairs.
pub open spec fn distinct_keys(s: Seq<(Seq<char>, Seq<Seq<char>>)>) -> bool {
    forall|i: int, j: int| 0 <= i < s.len() && 0 <= j < s.len() && i != j ==> #[trigger] s[i].0 != #[trigger] s[j].0
}

proof fn lemma_pairs_map_update(s: Seq<(Seq<char>, Seq<Seq<char>>)>, i: int, e: (Seq<char>, Seq<Seq<char>>))
    requires
        0 <= i < s.len(),
        distinct_keys(s),
        e.0 == s[i].0,
    ensures
        distinct_keys(s.update(i, e)),
        pairs_map(s.update(i, e)) == pairs_map(s).insert(e.0, e.1),
    decreases s.len(),
{
    let u = s.update(i, e);
    assert(distinct_keys(u)) by {
        assert forall|a: int, b: int|
            0 <= a < u.len() && 0 <= b < u.len() && a != b implies #[trigger] u[a].0 != #[trigger] u[b].0 by {
            assert(u[a].0 == s[a].0 && u[b].0 == s[b].0);
        }
    }
    if i == s.len() - 1 {
        assert(u.drop_last() =~= s.drop_last());
        assert(pairs_map(u) =~= pairs_map(s).insert(e.0, e.1));
    } else {
        let t = s.drop_last();
        assert(distinct_keys(t)) by {
            assert forall|a: int, b: int|
                0 <= a < t.len() && 0 <= b < t.len() && a != b implies #[trigger] t[a].0 != #[trigger] t[b].0 by {
                assert(t[a] == s[a] && t[b] == s[b]);
            }
        }
        lemma_pairs_map_update(t, i, e);
        assert(u.drop_last() =~= t.update(i, e));
        assert(s.last().0 != e.0);
        assert(pairs_map(u) =~= pairs_map(s).insert(e.0, e.1));
    }
}

/// An aspect address map as plain values.
pub open spec fn aspect_address_map_view(m: AspectAddressMap) -> Seq<(Seq<char>, Seq<Seq<char>>)> {
    m@.map_values(|p: (String, Vec<String>)| (p.0@, p.1.deep_view()))
}

/// The index of the entry keyed `key`, if there is one.
fn find_entry(entries: &AspectAddressMap, key: &String) -> (r: Option<usize>)
    ensures
        match r {
            Some(i) => i < entries@.len() && entries@[i as int].0@ == key@,
            None => forall|i: int| 0 <= i < entries@.len() ==> #[trigger] entries@[i].0@ != key@,
        },
{
    let mut i: usize = 0;
    while i < entries.len()
        invariant
            i <= entries@.len(),
            forall|j: int| 0 <= j < i ==> #[trigger] entries@[j].0@ != key@,
        decreases entries@.len() - i,
    {
        if entries[i].0 == *key {
            return Some(i);
        }
        i = i + 1;
    }
    None
}

/// A copy of a list of texts.
fn copy_strings(v: &Vec<String>) -> (r: Vec<String>)
    ensures
        r.deep_view() == v.deep_view(),
{
    let mut r: Vec<String> = Vec::new();
    let mut i: usize = 0;
    while i < v.len()
        invariant
            i <= v@.len(),
            r@.len() == i,
            forall|j: int| 0 <= j < i ==> (#[trigger] r@[j])@ == v@[j]@,
        decreases v@.len() - i,
    {
        r.push(v[i].clone());
        i = i + 1;
    }
    assert(r.deep_view() =~= v.deep_view());
    r
}

/// The item `m` names the entry `k` with an aspect list: its item key attribute
/// is the string `k`, and its aspect list attribute holds a string set.
pub open spec fn names_listed_entry(m: Map<Seq<char>, AttributeValue>, k: Seq<char>) -> bool {
    &&& m.contains_key(ITEM_KEY@)
    &&& m[ITEM_KEY@].s matches Some(x) && x@ == k
    &&& m.contains_key(ASPECT_LIST_KEY@)
    &&& m[ASPECT_LIST_KEY@].ss is Some
}

/// What a scan reports of a page of items, as a map from entry keys to aspect
/// addresses: every key names an item of the page with an aspect list string
/// set, the value is the texts of that set, of the last such item of the page
/// for that key; and every item of the page with an item key string and an
/// aspect list string set has its key reported. Items without both report
/// nothing.
pub open spec fn reports_page(items: Seq<Item>, m: Map<Seq<char>, Seq<Seq<char>>>) -> bool {
    &&& forall|k: Seq<char>|
        #[trigger] m.contains_key(k) ==> exists|j: int|
            0 <= j < items.len() && names_listed_entry(#[trigger] items[j]@, k)
                && m[k] == items[j]@[ASPECT_LIST_KEY@].ss->0.deep_view()
                && forall|j2: int| j < j2 < items.len() ==> !names_listed_entry(#[trigger] items[j2]@, k)
    &&& forall|j: int, k: Seq<char>|
        0 <= j < items.len() && names_listed_entry(#[trigger] items[j]@, k) ==> #[trigger] m.contains_key(k)
}

/// A page's scanned map reports exactly the page's entries with aspect lists:
/// keys come only from items that carry an item key string and an aspect list
/// string set, each with its last such item's addresses, and every such item
/// is reported.
pub proof fn lemma_scan_reports_page(items: Seq<Item>)
    ensures
        reports_page(items, scanned_map(items)),
    decreases items.len(),
{
    if items.len() > 0 {
        let prefix = items.drop_last();
        let last = items.last();
        let n = items.len() - 1;
        lemma_scan_reports_page(prefix);
        let before = scanned_map(prefix);
        let after = scanned_map(items);
        assert(items[n] == last);
        assert forall|j: int| 0 <= j < n implies #[trigger] items[j] == prefix[j] by {}
        match scanned_entry(last@) {
            Some(e) => {
                assert(names_listed_entry(last@, e.0));
                assert forall|k: Seq<char>| #[trigger] after.contains_key(k) implies exists|j: int|
                    0 <= j < items.len() && names_listed_entry(#[trigger] items[j]@, k)
                        && after[k] == items[j]@[ASPECT_LIST_KEY@].ss->0.deep_view()
                        && forall|j2: int| j < j2 < items.len() ==> !names_listed_entry(#[trigger] items[j2]@, k) by {
                    if k == e.0 {
                        assert(names_listed_entry(items[n]@, k));
                    } else {
                        assert(before.contains_key(k));
                        let j = choose|j: int|
                            0 <= j < prefix.len() && names_listed_entry(#[trigger] prefix[j]@, k)
                                && before[k] == prefix[j]@[ASPECT_LIST_KEY@].ss->0.deep_view()
                                && forall|j2: int| j < j2 < prefix.len() ==> !names_listed_entry(#[trigger] prefix[j2]@, k);
                        assert(items[j] == prefix[j]);
                        assert forall|j2: int| j < j2 < items.len() implies !names_listed_entry(#[trigger] items[j2]@, k) by {
                            if j2 < n {
                                assert(items[j2] == prefix[j2]);
                            }
                        }
                    }
                }
                assert forall|j: int, k: Seq<char>|
                    0 <= j < items.len() && names_listed_entry(#[trigger] items[j]@, k) implies #[trigger] after.contains_key(k) by {
                    if j < n {
                        assert(items[j] == prefix[j]);
                        assert(names_listed_entry(prefix[j]@, k));
                    }
                }
            },
            None => {
                assert(after == before);
                assert forall|k: Seq<char>| #[trigger] after.contains_key(k) implies exists|j: int|
                    0 <= j < items.len() && names_listed_entry(#[trigger] items[j]@, k)
                        && after[k] == items[j]@[ASPECT_LIST_KEY@].ss->0.deep_view()
                        && forall|j2: int| j < j2 < items.len() ==> !names_listed_entry(#[trigger] items[j2]@, k) by {
                    let j = choose|j: int|
                        0 <= j < prefix.len() && names_listed_entry(#[trigger] prefix[j]@, k)
                            && before[k] == prefix[j]@[ASPECT_LIST_KEY@].ss->0.deep_view()
                            && forall|j2: int| j < j2 < prefix.len() ==> !names_listed_entry(#[trigger] prefix[j2]@, k);
                    assert(items[j] == prefix[j]);
                    assert forall|j2: int| j < j2 < items.len() implies !names_listed_entry(#[trigger] items[j2]@, k) by {
                        if j2 < n {
                            assert(items[j2] == prefix[j2]);
                        } else {
                            assert(!names_listed_entry(last@, k));
                        }
                    }
                }
                assert forall|j: int, k: Seq<char>|
                    0 <= j < items.len() && names_listed_entry(#[trigger] items[j]@, k) implies #[trigger] after.contains_key(k) by {
                    if j < n {
                        assert(items[j] == prefix[j]);
                        assert(names_listed_entry(prefix[j]@, k));
                    } else {
                        assert(!names_listed_entry(last@, k));
                    }
                }
            },
        }
    }
}

/// The entries' aspect lists of a scanned page, and the key to start the next
/// page from, from the reply to the scan.
pub fn scan_aspects_reply(reply: Result<ScanOutput, DbError>) -> (r: BbDhtResult<(AspectAddressMap, Option<Item>)>)
    ensures
        match reply {
            Err(e) => r == Err::<(AspectAddressMap, Option<Item>), BbDhtError>(error_of(e)),
            Ok(out) => r matches Ok(p) && distinct_keys(aspect_address_map_view(p.0))
                && pairs_map(aspect_address_map_view(p.0)) == scanned_map(
                match out.items {
                    Some(items) => items@,
                    None => Seq::empty(),
                },
            ) && reports_page(
                match out.items {
                    Some(items) => items@,
                    None => Seq::empty(),
                },
                pairs_map(aspect_address_map_view(p.0)),
            ) && p.1 == out.last_evaluated_key,
        },
{
    match reply {
        Err(err) => Err(BbDhtError::from(err)),
        Ok(result) => {
            let items = match result.items {
                Some(items) => items,
                None => Vec::new(),
            };
            let mut entries: AspectAddressMap = Vec::new();
            let mut i: usize = 0;
            while i < items.len()
                invariant
                    i <= items@.len(),
                    distinct_keys(aspect_address_map_view(entries)),
                    pairs_map(aspect_address_map_view(entries)) == scanned_map(items@.subrange(0, i as int)),
                decreases items@.len() - i,
            {
                let ghost before = entries;
                proof {
                    assert(items@.subrange(0, i + 1).drop_last() =~= items@.subrange(0, i as int));
                    assert(items@.subrange(0, i + 1).last() == items@[i as int]);
                }
                let item = &items[i];
                let key = item.get(&String::from_str(ITEM_KEY));
                let list = item.get(&String::from_str(ASPECT_LIST_KEY));
                match (key, list) {
                    (Some(k), Some(l)) => match (&k.s, &l.ss) {
                        (Some(address), Some(addresses)) => {
                            let ghost e = (address@, addresses.deep_view());
                            match find_entry(&entries, address) {
                                Some(j) => {
                                    entries.set(j, (address.clone(), copy_strings(addresses)));
                                    proof {
                                        assert(aspect_address_map_view(entries) =~= aspect_address_map_view(before).update(
                                            j as int,
                                            e,
                                        ));
                                        lemma_pairs_map_update(aspect_address_map_view(before), j as int, e);
                                    }
                                },
                                None => {
                                    entries.push((address.clone(), copy_strings(addresses)));
                                    proof {
                                        let v = aspect_address_map_view(entries);
                                        assert(v =~= aspect_address_map_view(before).push(e));
                                        assert(v.drop_last() =~= aspect_address_map_view(before));
                                        assert forall|a: int, b: int|
                                            0 <= a < v.len() && 0 <= b < v.len() && a != b implies #[trigger] v[a].0
                                            != #[trigger] v[b].0 by {
                                            if a < v.len() - 1 {
                                                assert(before@[a].0@ == v[a].0);
                                            }
                                            if b < v.len() - 1 {
                                                assert(before@[b].0@ == v[b].0);
                                            }
                                        }
                                    }
                                },
                            }
                        },
                        _ => {},
                    },
                    _ => {},
                }
                i = i + 1;
            }
            assert(items@.subrange(0, items@.len() as int) =~= items@);
            proof {
                lemma_scan_reports_page(items@);
            }
            Ok((entries, result.last_evaluated_key))
        },
    }
}

} // verus!
