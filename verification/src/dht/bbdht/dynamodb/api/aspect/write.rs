//! Publishing entry aspects.
use crate::aspect::EntryAddress;
use crate::data_types::{EntryAspectData, EntryAspectDataView};
use crate::decimal::decimal;
use crate::dht::bbdht::dynamodb::api::item::{keyed_as, keyed_item, Item, ItemKey};
use crate::dht::bbdht::dynamodb::api::item::write::should_put_item_retry;
use crate::dht::bbdht::dynamodb::request::{DbReply, DbRequest, PutItemInput, Step, UpdateItemInput};
use crate::dht::bbdht::error::{error_of, is_transient, BbDhtError, BbDhtResult};
use crate::dht::bbdht::dynamodb::schema::cas::{
    lemma_attribute_name_lengths, ASPECT_ADDRESS_KEY, ASPECT_KEY, ASPECT_LIST_KEY,
    ASPECT_PUBLISH_TS_KEY, ASPECT_TYPE_HINT_KEY, ITEM_KEY, PARTITION_KEY,
};
use crate::dht::bbdht::dynamodb::schema::{
    blob_attribute_value, holds_blob, holds_number, holds_string, holds_string_set,
    number_attribute_value, string_attribute_value, string_set_attribute_value, AttributeValue,
};
use crate::space::{Space, SpaceView};
use vstd::prelude::*;

verus! {

/// The addresses of the aspects of a list, in order.
pub open spec fn aspect_addresses(aspect_list: Seq<EntryAspectData>) -> Seq<Seq<char>> {
    aspect_list.map_values(|a: EntryAspectData| a.aspect_address@)
}

/// The string set of the addresses of the aspects, in the order of the list.
pub fn aspect_list_to_attribute(space: &Space, aspect_list: &Vec<EntryAspectData>) -> (r: AttributeValue)
    ensures
        holds_string_set(r, aspect_addresses(aspect_list@)),
{
    let mut keys: Vec<String> = Vec::new();
    let mut i: usize = 0;
    while i < aspect_list.len()
        invariant
            i <= aspect_list@.len(),
            keys@.len() == i,
            forall|j: int| 0 <= j < i ==> (#[trigger] keys@[j])@ == aspect_list@[j].aspect_address@,
        decreases aspect_list@.len() - i,
    {
        keys.push(aspect_list[i].aspect_address.clone());
        i = i + 1;
    }
    assert(keys.deep_view() =~= aspect_addresses(aspect_list@));
    string_set_attribute_value(keys)
}

/// `m` is the item that stores `aspect` in `space`: keyed at the aspect's
/// address, with the aspect's address, type hint, bytes and publication time
/// (in decimal).
pub open spec fn is_aspect_item(m: Map<Seq<char>, AttributeValue>, space: SpaceView, aspect: EntryAspectDataView) -> bool {
    &&& m.dom() == set![PARTITION_KEY@, ASPECT_ADDRESS_KEY@, ASPECT_TYPE_HINT_KEY@, ASPECT_KEY@, ASPECT_PUBLISH_TS_KEY@]
    &&& keyed_as(m, space, aspect.aspect_address)
    &&& holds_string(m[ASPECT_ADDRESS_KEY@], aspect.aspect_address)
    &&& holds_string(m[ASPECT_TYPE_HINT_KEY@], aspect.type_hint)
    &&& holds_blob(m[ASPECT_KEY@], aspect.aspect)
    &&& holds_number(m[ASPECT_PUBLISH_TS_KEY@], decimal(aspect.publish_ts as nat))
}

/// The item that stores `aspect` in `space`.
pub fn aspect_to_item(space: &Space, aspect: &EntryAspectData) -> (r: Item)
    ensures
        is_aspect_item(r@, space@, aspect@),
{
    proof {
        lemma_attribute_name_lengths();
    }
    let mut item = keyed_item(space, &ItemKey(aspect.aspect_address.clone()));
    item.insert(String::from_str(ASPECT_ADDRESS_KEY), string_attribute_value(&aspect.aspect_address));
    item.insert(String::from_str(ASPECT_TYPE_HINT_KEY), string_attribute_value(&aspect.type_hint));
    item.insert(String::from_str(ASPECT_KEY), blob_attribute_value(&aspect.aspect));
    item.insert(String::from_str(ASPECT_PUBLISH_TS_KEY), number_attribute_value(&aspect.publish_ts));
    assert(item@.dom() =~= set![PARTITION_KEY@, ASPECT_ADDRESS_KEY@, ASPECT_TYPE_HINT_KEY@, ASPECT_KEY@, ASPECT_PUBLISH_TS_KEY@]);
    item
}

/// The request that stores `aspect` in `space`, under its own address
/// (`write_until_done` with `Write::Aspect` sends it until it is done).
pub fn put_aspect(space: &Space, aspect: &EntryAspectData) -> (r: PutItemInput)
    ensures
        r.table_name@ == space@.table_name,
        is_aspect_item(r.item@, space@, aspect@),
{
    PutItemInput {
        table_name: space.connection().table_name().as_string().clone(),
        item: aspect_to_item(space, aspect),
    }
}

/// `u` is the update that adds the addresses of the aspects of `aspect_list` to the
/// aspect list of the entry at `entry_address` in `space`.
pub open spec fn is_aspect_list_update(u: UpdateItemInput, space: SpaceView, entry_address: Seq<char>, aspect_list: Seq<EntryAspectData>) -> bool {
    &&& u.table_name@ == space.table_name
    &&& u.key@.dom() == set![PARTITION_KEY@]
    &&& keyed_as(u.key@, space, entry_address)
    &&& u.update_expression matches Some(e) && e@ == "ADD #aspect_list :aspects SET #item = :item"@
    &&& u.expression_attribute_names matches Some(names) && names@.len() == 2
        && names@[0].0@ == "#aspect_list"@ && names@[0].1@ == ASPECT_LIST_KEY@
        && names@[1].0@ == "#item"@ && names@[1].1@ == ITEM_KEY@
    &&& u.expression_attribute_values matches Some(values) && values@.dom() == set![":aspects"@, ":item"@]
        && holds_string_set(values@[":aspects"@], aspect_addresses(aspect_list))
        && holds_string(values@[":item"@], entry_address)
}

/// The update that adds the aspects' addresses to the aspect list of the entry
/// at `entry_address` in `space`, and records the entry's address in its item
/// key attribute: `ADD #aspect_list :aspects SET #item = :item`, with
/// `#aspect_list` the aspect list attribute, `:aspects` the set of addresses,
/// `#item` the item key attribute and `:item` the entry's address.
pub fn aspect_list_update(space: &Space, entry_address: &EntryAddress, aspect_list: &Vec<EntryAspectData>) -> (r: UpdateItemInput)
    ensures
        is_aspect_list_update(r, space@, entry_address@, aspect_list@),
{
    let key = keyed_item(space, &ItemKey(entry_address.0.clone()));
    let mut values = Item::new();
    values.insert(String::from_str(":aspects"), aspect_list_to_attribute(space, aspect_list));
    values.insert(String::from_str(":item"), string_attribute_value(&entry_address.0));
    proof {
        reveal_strlit(":aspects");
        reveal_strlit(":item");
        assert(":aspects"@.len() != ":item"@.len());
    }
    assert(values@.dom() =~= set![":aspects"@, ":item"@]);
    let names = vec![
        (String::from_str("#aspect_list"), String::from_str(ASPECT_LIST_KEY)),
        (String::from_str("#item"), String::from_str(ITEM_KEY)),
    ];
    UpdateItemInput {
        table_name: space.connection().table_name().as_string().clone(),
        key,
        update_expression: Some(String::from_str("ADD #aspect_list :aspects SET #item = :item")),
        expression_attribute_names: Some(names),
        expression_attribute_values: Some(values),
    }
}

/// The views of a list of aspects.
pub open spec fn aspect_list_view(s: Seq<EntryAspectData>) -> Seq<EntryAspectDataView> {
    s.map_values(|a: EntryAspectData| a@)
}

/// Where publishing an entry's aspects stands.
#[derive(Debug, Clone, Copy)]
pub enum AppendPhase {
    /// Storing the aspect of this index.
    Putting(usize),
    /// Adding the aspects' addresses to the entry's aspect list.
    Updating,
    /// Finished.
    Finished,
}

/// Publishing the aspects of an entry.
pub struct AppendAspectList {
    pub space: Space,
    pub entry_address: EntryAddress,
    pub aspect_list: Vec<EntryAspectData>,
    pub phase: AppendPhase,
}

/// `r` is the request that stores `aspect` in `space`.
pub open spec fn puts_aspect(r: DbRequest, space: SpaceView, aspect: EntryAspectDataView) -> bool {
    r matches DbRequest::PutItem(p) && p.table_name@ == space.table_name && is_aspect_item(p.item@, space, aspect)
}

/// `r` is the update of the entry's aspect list with the aspects of `a`.
pub open spec fn updates_list(r: DbRequest, a: AppendAspectList) -> bool {
    &&& r matches DbRequest::UpdateItem(u)
    &&& exists|list: Seq<EntryAspectData>| aspect_list_view(list) == aspect_list_view(a.aspect_list@)
        && #[trigger] is_aspect_list_update(u, a.space@, a.entry_address@, list)
}

/// A copy of a list of aspects.
fn copy_aspect_list(aspect_list: &Vec<EntryAspectData>) -> (r: Vec<EntryAspectData>)
    ensures
        aspect_list_view(r@) == aspect_list_view(aspect_list@),
{
    let mut r: Vec<EntryAspectData> = Vec::new();
    let mut i: usize = 0;
    while i < aspect_list.len()
        invariant
            i <= aspect_list@.len(),
            r@.len() == i,
            forall|j: int| 0 <= j < i ==> (#[trigger] r@[j])@ == aspect_list@[j]@,
        decreases aspect_list@.len() - i,
    {
        r.push(aspect_list[i].copy());
        i = i + 1;
    }
    assert(aspect_list_view(r@) =~= aspect_list_view(aspect_list@));
    r
}

/// Publishes the aspects of the entry at `entry_address`: stores each aspect
/// under its own address, in order (sending a write again while it fails in a
/// way that may pass on a new try), then adds the aspects' addresses to the
/// entry's aspect list. The aspects are all stored before they become
/// discoverable under the entry.
pub fn append_aspect_list_to_entry(space: &Space, entry_address: &EntryAddress, aspect_list: &Vec<EntryAspectData>) -> (r: (AppendAspectList, DbRequest))
    ensures
        r.0.space@ == space@,
        r.0.entry_address@ == entry_address@,
        aspect_list_view(r.0.aspect_list@) == aspect_list_view(aspect_list@),
        if aspect_list@.len() == 0 {
            r.0.phase is Updating && updates_list(r.1, r.0)
        } else {
            r.0.phase == AppendPhase::Putting(0) && puts_aspect(r.1, space@, aspect_list@[0]@)
        },
{
    let mut append = AppendAspectList {
        space: space.copy(),
        entry_address: entry_address.copy(),
        aspect_list: copy_aspect_list(aspect_list),
        phase: AppendPhase::Finished,
    };
    proof {
        assert(aspect_list_view(append.aspect_list@).len() == append.aspect_list@.len());
        assert(aspect_list_view(aspect_list@).len() == aspect_list@.len());
    }
    if aspect_list.len() == 0 {
        append.phase = AppendPhase::Updating;
        let request = append.update_request();
        (append, request)
    } else {
        append.phase = AppendPhase::Putting(0);
        let request = append.put_request(0);
        proof {
            assert(aspect_list_view(append.aspect_list@)[0] == append.aspect_list@[0]@);
            assert(aspect_list_view(aspect_list@)[0] == aspect_list@[0]@);
        }
        (append, request)
    }
}

impl AppendAspectList {
    fn put_request(&self, i: usize) -> (r: DbRequest)
        requires
            i < self.aspect_list@.len(),
        ensures
            puts_aspect(r, self.space@, self.aspect_list@[i as int]@),
    {
        DbRequest::PutItem(put_aspect(&self.space, &self.aspect_list[i]))
    }

    fn update_request(&self) -> (r: DbRequest)
        ensures
            updates_list(r, *self),
    {
        let u = aspect_list_update(&self.space, &self.entry_address, &self.aspect_list);
        assert(is_aspect_list_update(u, self.space@, self.entry_address@, self.aspect_list@));
        DbRequest::UpdateItem(u)
    }

    /// The phase's index is within the list.
    pub open spec fn wf(&self) -> bool {
        self.phase matches AppendPhase::Putting(i) ==> i < self.aspect_list@.len()
    }

    /// Whether `reply` answers the request this operation waits for.
    pub open spec fn awaits(&self, reply: DbReply) -> bool {
        match self.phase {
            AppendPhase::Putting(_) => reply is PutItem,
            AppendPhase::Updating => reply is UpdateItem,
            AppendPhase::Finished => false,
        }
    }

    /// The next step after a reply.
    pub fn on_reply(self, reply: DbReply) -> (r: (AppendAspectList, Step<BbDhtResult<()>>))
        requires
            self.wf(),
            self.awaits(reply),
        ensures
            r.0.space@ == self.space@,
            r.0.entry_address@ == self.entry_address@,
            aspect_list_view(r.0.aspect_list@) == aspect_list_view(self.aspect_list@),
            r.0.wf(),
            match self.phase {
                AppendPhase::Putting(i) => match reply->PutItem_0 {
                    Ok(_) => if i + 1 < self.aspect_list@.len() {
                        r.0.phase == AppendPhase::Putting((i + 1) as usize) && r.1 is Send
                            && puts_aspect(r.1->Send_0, self.space@, self.aspect_list@[i + 1]@)
                    } else {
                        r.0.phase is Updating && r.1 is Send && updates_list(r.1->Send_0, r.0)
                    },
                    Err(e) => if is_transient(e) {
                        r.0.phase == AppendPhase::Putting(i) && r.1 is Send
                            && puts_aspect(r.1->Send_0, self.space@, self.aspect_list@[i as int]@)
                    } else {
                        r.0.phase is Finished && r.1 == Step::<BbDhtResult<()>>::Done(Err(error_of(e)))
                    },
                },
                AppendPhase::Updating => r.0.phase is Finished && match reply->UpdateItem_0 {
                    Ok(_) => r.1 == Step::<BbDhtResult<()>>::Done(Ok(())),
                    Err(e) => r.1 == Step::<BbDhtResult<()>>::Done(Err(error_of(e))),
                },
                AppendPhase::Finished => false,
            },
    {
        let mut this = self;
        match (this.phase, reply) {
            (AppendPhase::Putting(i), DbReply::PutItem(written)) => match should_put_item_retry(written) {
                Ok(true) => {
                    let request = this.put_request(i);
                    (this, Step::Send(request))
                },
                Ok(false) => {
                    if this.aspect_list.len() - i > 1 {
                        this.phase = AppendPhase::Putting(i + 1);
                        let request = this.put_request(i + 1);
                        (this, Step::Send(request))
                    } else {
                        this.phase = AppendPhase::Updating;
                        let request = this.update_request();
                        (this, Step::Send(request))
                    }
                },
                Err(err) => {
                    this.phase = AppendPhase::Finished;
                    (this, Step::Done(Err(err)))
                },
            },
            (AppendPhase::Updating, DbReply::UpdateItem(written)) => {
                this.phase = AppendPhase::Finished;
                match written {
                    Ok(_) => (this, Step::Done(Ok(()))),
                    Err(e) => (this, Step::Done(Err(BbDhtError::from(e)))),
                }
            },
            _ => vstd::pervasive::unreached(),
        }
    }
}

} // verus!
