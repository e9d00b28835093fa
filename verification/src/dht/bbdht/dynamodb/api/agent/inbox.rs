//! Agents' inboxes: direct messages stored under their request ids, and each
//! agent's list of the request ids addressed to it.
use crate::agent::AgentAddress;
use crate::data_types::{copy_bytes, DirectMessageData, DirectMessageDataView};
use crate::dht::bbdht::dynamodb::api::aspect::read::{result_reads, Reading};
use crate::dht::bbdht::dynamodb::api::item::read::get_item_from_space;
use crate::dht::bbdht::dynamodb::store::{adds_string_set, string_set_of};
use crate::dht::bbdht::dynamodb::api::item::text::{item_text, render_item, render_request_id, request_id_text};
use crate::dht::bbdht::dynamodb::api::item::{keyed_as, keyed_item, Item, ItemKey};
use crate::dht::bbdht::dynamodb::api::item::write::should_put_item_retry;
use crate::dht::bbdht::dynamodb::request::{DbReply, DbRequest, GetItemInput, PutItemInput, Step, UpdateItemInput};
use crate::dht::bbdht::dynamodb::schema::cas::{
    inbox_key, lemma_attribute_name_lengths, ALL_MESSAGES_FOLDER, INBOX_KEY_PREFIX, ITEM_KEY,
    MESSAGE_CONTENT_KEY, MESSAGE_FROM_KEY, MESSAGE_IS_RESPONSE_KEY, MESSAGE_TO_KEY,
    PARTITION_KEY, SEEN_MESSAGES_FOLDER, SPACE_KEY,
};
use crate::dht::bbdht::dynamodb::schema::{
    blob_attribute_value, bool_attribute_value, holds_blob, holds_bool, holds_string,
    holds_string_set, string_attribute_value, string_set_attribute_value, AttributeValue,
};
use crate::dht::bbdht::error::{error_of, is_transient, BbDhtError, BbDhtResult, DbError};
use crate::network::RequestId;
use crate::space::{Space, SpaceView};
use vstd::prelude::*;
use vstd::std_specs::convert::FromSpecImpl;

verus! {

/// The address of the agent that sends a message.
#[derive(Debug, PartialEq, Eq, Clone)]
pub struct FromAddress(pub String);

impl View for FromAddress {
    type V = Seq<char>;

    open spec fn view(&self) -> Seq<char> {
        self.0@
    }
}

/// The address of the agent that a message is for.
#[derive(Debug, PartialEq, Eq, Clone)]
pub struct ToAddress(pub String);

impl View for ToAddress {
    type V = Seq<char>;

    open spec fn view(&self) -> Seq<char> {
        self.0@
    }
}

/// A folder of an inbox: the attribute that lists the request ids filed in it.
#[derive(Debug, PartialEq, Eq, Clone)]
pub struct Folder(pub String);

impl View for Folder {
    type V = Seq<char>;

    open spec fn view(&self) -> Seq<char> {
        self.0@
    }
}

impl From<FromAddress> for String {
    fn from(from_address: FromAddress) -> (r: String) {
        from_address.0
    }
}

impl FromSpecImpl<FromAddress> for String {
    open spec fn obeys_from_spec() -> bool {
        true
    }

    open spec fn from_spec(from_address: FromAddress) -> String {
        from_address.0
    }
}

impl<'a> From<&'a FromAddress> for String {
    fn from(from_address: &'a FromAddress) -> (r: String) {
        from_address.0.clone()
    }
}

impl<'a> FromSpecImpl<&'a FromAddress> for String {
    open spec fn obeys_from_spec() -> bool {
        true
    }

    open spec fn from_spec(from_address: &'a FromAddress) -> String {
        from_address.0
    }
}

impl From<String> for FromAddress {
    fn from(address: String) -> (r: FromAddress) {
        FromAddress(address)
    }
}

impl FromSpecImpl<String> for FromAddress {
    open spec fn obeys_from_spec() -> bool {
        true
    }

    open spec fn from_spec(address: String) -> FromAddress {
        FromAddress(address)
    }
}

impl From<String> for ToAddress {
    fn from(address: String) -> (r: ToAddress) {
        ToAddress(address)
    }
}

impl FromSpecImpl<String> for ToAddress {
    open spec fn obeys_from_spec() -> bool {
        true
    }

    open spec fn from_spec(address: String) -> ToAddress {
        ToAddress(address)
    }
}

impl From<AgentAddress> for ToAddress {
    fn from(agent_address: AgentAddress) -> (r: ToAddress) {
        ToAddress(agent_address.0)
    }
}

impl FromSpecImpl<AgentAddress> for ToAddress {
    open spec fn obeys_from_spec() -> bool {
        true
    }

    open spec fn from_spec(agent_address: AgentAddress) -> ToAddress {
        ToAddress(agent_address.0)
    }
}

impl From<AgentAddress> for FromAddress {
    fn from(agent_address: AgentAddress) -> (r: FromAddress) {
        FromAddress(agent_address.0)
    }
}

impl FromSpecImpl<AgentAddress> for FromAddress {
    open spec fn obeys_from_spec() -> bool {
        true
    }

    open spec fn from_spec(agent_address: AgentAddress) -> FromAddress {
        FromAddress(agent_address.0)
    }
}

impl<'a> From<&'a AgentAddress> for ToAddress {
    fn from(agent_address: &'a AgentAddress) -> (r: ToAddress) {
        ToAddress(agent_address.0.clone())
    }
}

impl<'a> FromSpecImpl<&'a AgentAddress> for ToAddress {
    open spec fn obeys_from_spec() -> bool {
        true
    }

    open spec fn from_spec(agent_address: &'a AgentAddress) -> ToAddress {
        ToAddress(agent_address.0)
    }
}

impl<'a> From<&'a AgentAddress> for FromAddress {
    fn from(agent_address: &'a AgentAddress) -> (r: FromAddress) {
        FromAddress(agent_address.0.clone())
    }
}

impl<'a> FromSpecImpl<&'a AgentAddress> for FromAddress {
    open spec fn obeys_from_spec() -> bool {
        true
    }

    open spec fn from_spec(agent_address: &'a AgentAddress) -> FromAddress {
        FromAddress(agent_address.0)
    }
}

impl From<ToAddress> for String {
    fn from(to_address: ToAddress) -> (r: String) {
        to_address.0
    }
}

impl FromSpecImpl<ToAddress> for String {
    open spec fn obeys_from_spec() -> bool {
        true
    }

    open spec fn from_spec(to_address: ToAddress) -> String {
        to_address.0
    }
}

impl<'a> From<&'a ToAddress> for String {
    fn from(to_address: &'a ToAddress) -> (r: String) {
        to_address.0.clone()
    }
}

impl<'a> FromSpecImpl<&'a ToAddress> for String {
    open spec fn obeys_from_spec() -> bool {
        true
    }

    open spec fn from_spec(to_address: &'a ToAddress) -> String {
        to_address.0
    }
}

impl From<Folder> for String {
    fn from(folder: Folder) -> (r: String) {
        folder.0
    }
}

impl FromSpecImpl<Folder> for String {
    open spec fn obeys_from_spec() -> bool {
        true
    }

    open spec fn from_spec(folder: Folder) -> String {
        folder.0
    }
}

impl From<String> for Folder {
    fn from(string: String) -> (r: Folder) {
        Folder(string)
    }
}

impl FromSpecImpl<String> for Folder {
    open spec fn obeys_from_spec() -> bool {
        true
    }

    open spec fn from_spec(string: String) -> Folder {
        Folder(string)
    }
}

impl<'a> From<&'a Folder> for String {
    fn from(folder: &'a Folder) -> (r: String) {
        folder.0.clone()
    }
}

impl<'a> FromSpecImpl<&'a Folder> for String {
    open spec fn obeys_from_spec() -> bool {
        true
    }

    open spec fn from_spec(folder: &'a Folder) -> String {
        folder.0
    }
}

impl Folder {
    /// The folder named `name`.
    pub fn new(name: &str) -> (r: Folder)
        ensures
            r@ == name@,
    {
        Folder(name.to_owned())
    }

    /// The name of the folder.
    pub fn to_string(&self) -> (r: String)
        ensures
            r@ == self@,
    {
        self.0.clone()
    }
}

/// `m` is the item that stores a message in `space` under `request_id`: keyed
/// at the request id, with the space's hash, the request id, the sender, the
/// recipient, the content and whether the message is a response.
pub open spec fn is_message_item(
    m: Map<Seq<char>, AttributeValue>,
    space: SpaceView,
    request_id: Seq<char>,
    from: Seq<char>,
    to: Seq<char>,
    content: Seq<u8>,
    response: bool,
) -> bool {
    &&& m.dom() == set![
        PARTITION_KEY@,
        SPACE_KEY@,
        ITEM_KEY@,
        MESSAGE_FROM_KEY@,
        MESSAGE_TO_KEY@,
        MESSAGE_CONTENT_KEY@,
        MESSAGE_IS_RESPONSE_KEY@,
    ]
    &&& keyed_as(m, space, request_id)
    &&& holds_string(m[SPACE_KEY@], space.space_hash)
    &&& holds_string(m[ITEM_KEY@], request_id)
    &&& holds_string(m[MESSAGE_FROM_KEY@], from)
    &&& holds_string(m[MESSAGE_TO_KEY@], to)
    &&& holds_blob(m[MESSAGE_CONTENT_KEY@], content)
    &&& holds_bool(m[MESSAGE_IS_RESPONSE_KEY@], response)
}

/// The item that stores a message under its request id.
pub fn inbox_message_item(
    space: &Space,
    request_id: &RequestId,
    from: &FromAddress,
    to: &ToAddress,
    content: &Vec<u8>,
    response: bool,
) -> (r: Item)
    ensures
        is_message_item(r@, space@, request_id@, from@, to@, content@, response),
{
    proof {
        lemma_attribute_name_lengths();
    }
    let mut item = keyed_item(space, &ItemKey(request_id.0.clone()));
    item.insert(String::from_str(SPACE_KEY), string_attribute_value(space.space_hash()));
    item.insert(String::from_str(ITEM_KEY), string_attribute_value(&request_id.0));
    item.insert(String::from_str(MESSAGE_FROM_KEY), string_attribute_value(&from.0));
    item.insert(String::from_str(MESSAGE_TO_KEY), string_attribute_value(&to.0));
    item.insert(String::from_str(MESSAGE_CONTENT_KEY), blob_attribute_value(content));
    item.insert(String::from_str(MESSAGE_IS_RESPONSE_KEY), bool_attribute_value(response));
    assert(item@.dom() =~= set![
        PARTITION_KEY@,
        SPACE_KEY@,
        ITEM_KEY@,
        MESSAGE_FROM_KEY@,
        MESSAGE_TO_KEY@,
        MESSAGE_CONTENT_KEY@,
        MESSAGE_IS_RESPONSE_KEY@,
    ]);
    item
}

/// The request that stores a message under its request id, so that it can be
/// read back as the message (`write_until_done` with `Write::Message` sends it
/// until it is done).
pub fn put_inbox_message(
    space: &Space,
    request_id: &RequestId,
    from: &FromAddress,
    to: &ToAddress,
    content: &Vec<u8>,
    response: bool,
) -> (r: PutItemInput)
    ensures
        r.table_name@ == space@.table_name,
        is_message_item(r.item@, space@, request_id@, from@, to@, content@, response),
{
    PutItemInput {
        table_name: space.connection().table_name().as_string().clone(),
        item: inbox_message_item(space, request_id, from, to, content, response),
    }
}

/// `u` is the update that files `request_id` in `folder` of the inbox of `to` in `space`.
pub open spec fn is_inbox_append(u: UpdateItemInput, space: SpaceView, folder: Seq<char>, request_id: Seq<char>, to: Seq<char>) -> bool {
    &&& u.table_name@ == space.table_name
    &&& u.key@.dom() == set![PARTITION_KEY@]
    &&& keyed_as(u.key@, space, INBOX_KEY_PREFIX@ + to)
    &&& u.update_expression matches Some(e) && e@ == "ADD #request_ids :request_ids"@
    &&& u.expression_attribute_names matches Some(names) && names@.len() == 1
        && names@[0].0@ == "#request_ids"@ && names@[0].1@ == folder
    &&& u.expression_attribute_values matches Some(values) && values@.dom() == set![":request_ids"@]
        && holds_string_set(values@[":request_ids"@], seq![request_id])
}

/// `g` is the consistent read of the item at `address` in `space`.
pub open spec fn reads_item(g: GetItemInput, space: SpaceView, address: Seq<char>) -> bool {
    &&& g.table_name@ == space.table_name
    &&& g.consistent_read == Some(true)
    &&& g.key@.dom() == set![PARTITION_KEY@]
    &&& keyed_as(g.key@, space, address)
}

/// The update that files `request_id` in `folder` of the inbox of `to`:
/// `ADD #request_ids :request_ids`, with `#request_ids` the folder and
/// `:request_ids` the set of the one request id.
pub fn append_request_id_to_inbox(
    space: &Space,
    folder: &Folder,
    request_id: &RequestId,
    to: &ToAddress,
) -> (r: UpdateItemInput)
    ensures
        is_inbox_append(r, space@, folder@, request_id@, to@),
{
    let inbox_address_key = keyed_item(space, &ItemKey(inbox_key(&to.0)));
    let mut inbox_attribute_values = Item::new();
    let ids = vec![request_id.0.clone()];
    assert(ids.deep_view() =~= seq![request_id@]);
    inbox_attribute_values.insert(String::from_str(":request_ids"), string_set_attribute_value(ids));
    assert(inbox_attribute_values@.dom() =~= set![":request_ids"@]);
    let inbox_attribute_names = vec![(String::from_str("#request_ids"), folder.0.clone())];
    UpdateItemInput {
        table_name: space.connection().table_name().as_string().clone(),
        key: inbox_address_key,
        update_expression: Some(String::from_str("ADD #request_ids :request_ids")),
        expression_attribute_names: Some(inbox_attribute_names),
        expression_attribute_values: Some(inbox_attribute_values),
    }
}

/// The request that reads the inbox of `to`.
pub fn get_inbox_request_ids(space: &Space, to: &ToAddress) -> (r: GetItemInput)
    ensures
        reads_item(r, space@, INBOX_KEY_PREFIX@ + to@),
{
    get_item_from_space(space, &ItemKey(inbox_key(&to.0)))
}

/// The request ids that an inbox item files in `folder`: those of the folder's
/// string set; none when there is no item, no such attribute, or no set in it.
pub open spec fn folder_ids(inbox: Option<Map<Seq<char>, AttributeValue>>, folder: Seq<char>) -> Seq<Seq<char>> {
    match inbox {
        Some(m) => if m.contains_key(folder) && m[folder].ss is Some {
            m[folder].ss->0.deep_view()
        } else {
            Seq::empty()
        },
        None => Seq::empty(),
    }
}

/// The views of a list of request ids.
pub open spec fn ids_view(ids: Seq<RequestId>) -> Seq<Seq<char>> {
    ids.map_values(|r: RequestId| r@)
}

/// The request ids filed in `inbox_folder`, from the reply to the inbox read.
pub fn inbox_request_ids(inbox_folder: &Folder, reply: Result<Option<Item>, DbError>) -> (r: BbDhtResult<Vec<RequestId>>)
    ensures
        match reply {
            Err(e) => r == Err::<Vec<RequestId>, BbDhtError>(error_of(e)),
            Ok(item) => r matches Ok(ids) && ids_view(ids@) == folder_ids(
                match item {
                    Some(i) => Some(i@),
                    None => None,
                },
                inbox_folder@,
            ),
        },
{
    match reply {
        Err(e) => Err(BbDhtError::from(e)),
        Ok(None) => {
            let ids: Vec<RequestId> = Vec::new();
            assert(ids_view(ids@) =~= Seq::<Seq<char>>::empty());
            Ok(ids)
        },
        Ok(Some(item)) => {
            let mut ids: Vec<RequestId> = Vec::new();
            match item.get(&inbox_folder.0) {
                Some(attribute) => match &attribute.ss {
                    Some(ss) => {
                        let mut i: usize = 0;
                        while i < ss.len()
                            invariant
                                i <= ss@.len(),
                                ids@.len() == i,
                                forall|j: int| 0 <= j < i ==> (#[trigger] ids@[j])@ == ss@[j]@,
                            decreases ss@.len() - i,
                        {
                            ids.push(RequestId(ss[i].clone()));
                            i = i + 1;
                        }
                        assert(ids_view(ids@) =~= ss.deep_view());
                    },
                    None => {
                        assert(ids_view(ids@) =~= Seq::<Seq<char>>::empty());
                    },
                },
                None => {
                    assert(ids_view(ids@) =~= Seq::<Seq<char>>::empty());
                },
            }
            Ok(ids)
        },
    }
}

/// The request ids of `inbox` that are not in `seen`, in the order of `inbox`.
pub open spec fn unseen(inbox: Seq<Seq<char>>, seen: Seq<Seq<char>>) -> Seq<Seq<char>>
    decreases inbox.len(),
{
    if inbox.len() == 0 {
        Seq::empty()
    } else if seen.contains(inbox.last()) {
        unseen(inbox.drop_last(), seen)
    } else {
        unseen(inbox.drop_last(), seen).push(inbox.last())
    }
}

/// Whether `ids` holds a request id equal to `request_id`.
fn contains_request_id(ids: &Vec<RequestId>, request_id: &RequestId) -> (r: bool)
    ensures
        r == ids_view(ids@).contains(request_id@),
{
    let mut i: usize = 0;
    while i < ids.len()
        invariant
            i <= ids@.len(),
            forall|j: int| 0 <= j < i ==> (#[trigger] ids@[j])@ != request_id@,
        decreases ids@.len() - i,
    {
        if ids[i].0 == request_id.0 {
            assert(ids_view(ids@)[i as int] == request_id@);
            return true;
        }
        i = i + 1;
    }
    assert(!ids_view(ids@).contains(request_id@)) by {
        if ids_view(ids@).contains(request_id@) {
            let j = choose|j: int| 0 <= j < ids_view(ids@).len() && ids_view(ids@)[j] == request_id@;
            assert(ids@[j]@ == request_id@);
        }
    }
    false
}

/// The request ids of the inbox that have not been seen, in inbox order.
pub fn unseen_request_ids(inbox_request_ids: &Vec<RequestId>, seen_request_ids: &Vec<RequestId>) -> (r: Vec<RequestId>)
    ensures
        ids_view(r@) == unseen(ids_view(inbox_request_ids@), ids_view(seen_request_ids@)),
{
    let mut r: Vec<RequestId> = Vec::new();
    let mut i: usize = 0;
    while i < inbox_request_ids.len()
        invariant
            i <= inbox_request_ids@.len(),
            ids_view(r@) == unseen(ids_view(inbox_request_ids@.subrange(0, i as int)), ids_view(seen_request_ids@)),
        decreases inbox_request_ids@.len() - i,
    {
        let ghost before = r@;
        let ghost prefix = inbox_request_ids@.subrange(0, i + 1);
        assert(ids_view(prefix).drop_last() =~= ids_view(inbox_request_ids@.subrange(0, i as int)));
        assert(ids_view(prefix).last() == inbox_request_ids@[i as int]@);
        if !contains_request_id(seen_request_ids, &inbox_request_ids[i]) {
            r.push(inbox_request_ids[i].copy());
            assert(ids_view(r@) =~= ids_view(before).push(inbox_request_ids@[i as int]@));
        }
        i = i + 1;
    }
    assert(inbox_request_ids@.subrange(0, inbox_request_ids@.len() as int) =~= inbox_request_ids@);
    r
}

/// A request id is unseen exactly when the inbox holds it and the seen folder
/// does not.
pub proof fn lemma_unseen_contains(inbox: Seq<Seq<char>>, seen: Seq<Seq<char>>, x: Seq<char>)
    ensures
        unseen(inbox, seen).contains(x) <==> (inbox.contains(x) && !seen.contains(x)),
    decreases inbox.len(),
{
    if inbox.len() > 0 {
        lemma_unseen_contains(inbox.drop_last(), seen, x);
        let rest = unseen(inbox.drop_last(), seen);
        if inbox.contains(x) && !seen.contains(x) {
            let i = choose|i: int| 0 <= i < inbox.len() && inbox[i] == x;
            if i < inbox.len() - 1 {
                assert(inbox.drop_last()[i] == x);
            }
        }
        if inbox.drop_last().contains(x) {
            let i = choose|i: int| 0 <= i < inbox.drop_last().len() && inbox.drop_last()[i] == x;
            assert(inbox[i] == x);
        }
        if !seen.contains(inbox.last()) {
            assert(rest.push(inbox.last())[rest.len() as int] == inbox.last());
            if rest.push(inbox.last()).contains(x) && x != inbox.last() {
                let j = choose|j: int| 0 <= j < rest.len() + 1 && rest.push(inbox.last())[j] == x;
                assert(rest[j] == x);
            }
            if rest.contains(x) {
                let j = choose|j: int| 0 <= j < rest.len() && rest[j] == x;
                assert(rest.push(inbox.last())[j] == x);
            }
        }
        assert(inbox[inbox.len() - 1] == inbox.last());
    }
}

/// Filing the unseen request ids of an inbox in its seen folder leaves none of
/// them unseen: the next check of the inbox finds nothing new.
pub proof fn lemma_unseen_then_none(inbox: Seq<Seq<char>>, seen: Seq<Seq<char>>)
    ensures
        unseen(inbox, seen + unseen(inbox, seen)) == Seq::<Seq<char>>::empty(),
{
    let after = seen + unseen(inbox, seen);
    assert forall|x: Seq<char>| !unseen(inbox, after).contains(x) by {
        lemma_unseen_contains(inbox, after, x);
        lemma_unseen_contains(inbox, seen, x);
        if inbox.contains(x) && !seen.contains(x) {
            let j = choose|j: int| 0 <= j < unseen(inbox, seen).len() && unseen(inbox, seen)[j] == x;
            assert(after[seen.len() + j] == x);
        }
        if seen.contains(x) {
            let j = choose|j: int| 0 <= j < seen.len() && seen[j] == x;
            assert(after[j] == x);
        }
    }
    if unseen(inbox, after).len() > 0 {
        assert(unseen(inbox, after).contains(unseen(inbox, after)[0]));
    }
    assert(unseen(inbox, after) =~= Seq::<Seq<char>>::empty());
}

/// The item holds every attribute that a message item is read from.
pub open spec fn has_message_attributes(m: Map<Seq<char>, AttributeValue>) -> bool {
    &&& m.contains_key(MESSAGE_CONTENT_KEY@)
    &&& m.contains_key(MESSAGE_FROM_KEY@)
    &&& m.contains_key(MESSAGE_TO_KEY@)
    &&& m.contains_key(SPACE_KEY@)
    &&& m.contains_key(ITEM_KEY@)
    &&& m.contains_key(MESSAGE_IS_RESPONSE_KEY@)
}

/// What reading a direct message out of the item `m` gives: the message and
/// whether it is a response, or an error for the first attribute, in the order
/// content, sender, recipient, space, request id, response flag, that holds no
/// value of its type.
pub open spec fn message_reading(m: Map<Seq<char>, AttributeValue>, text: Seq<char>) -> Reading<(DirectMessageDataView, bool)> {
    if m[MESSAGE_CONTENT_KEY@].b is None {
        Reading::MissingData("message item missing content "@ + text)
    } else if m[MESSAGE_FROM_KEY@].s is None {
        Reading::MissingData("message item missing from "@ + text)
    } else if m[MESSAGE_TO_KEY@].s is None {
        Reading::MissingData("message item missing to "@ + text)
    } else if m[SPACE_KEY@].s is None {
        Reading::MissingData("message item missing space_address "@ + text)
    } else if m[ITEM_KEY@].s is None {
        Reading::MissingData("message item missing request_id "@ + text)
    } else if m[MESSAGE_IS_RESPONSE_KEY@].bool is None {
        Reading::MissingData("message item missing response flag "@ + text)
    } else {
        Reading::Value(
            (
                DirectMessageDataView {
                    content: m[MESSAGE_CONTENT_KEY@].b->0@,
                    from_agent_id: m[MESSAGE_FROM_KEY@].s->0@,
                    to_agent_id: m[MESSAGE_TO_KEY@].s->0@,
                    request_id: m[ITEM_KEY@].s->0@,
                    space_address: m[SPACE_KEY@].s->0@,
                },
                m[MESSAGE_IS_RESPONSE_KEY@].bool->0,
            ),
        )
    }
}

/// The direct message that `item` stores, and whether it is a response.
pub fn item_to_direct_message_data(item: &Item) -> (r: BbDhtResult<(DirectMessageData, bool)>)
    requires
        has_message_attributes(item@),
    ensures
        result_reads(r, message_reading(item@, item_text(*item)), |p: (DirectMessageData, bool)| (p.0@, p.1)),
{
    let content = match &attribute(item, MESSAGE_CONTENT_KEY).b {
        Some(v) => copy_bytes(v),
        None => {
            return Err(BbDhtError::MissingData(String::from_str("message item missing content ").concat(render_item(item).as_str())));
        },
    };
    let from_agent_id = match &attribute(item, MESSAGE_FROM_KEY).s {
        Some(v) => v.clone(),
        None => {
            return Err(BbDhtError::MissingData(String::from_str("message item missing from ").concat(render_item(item).as_str())));
        },
    };
    let to_agent_id = match &attribute(item, MESSAGE_TO_KEY).s {
        Some(v) => v.clone(),
        None => {
            return Err(BbDhtError::MissingData(String::from_str("message item missing to ").concat(render_item(item).as_str())));
        },
    };
    let space_address = match &attribute(item, SPACE_KEY).s {
        Some(v) => v.clone(),
        None => {
            return Err(
                BbDhtError::MissingData(String::from_str("message item missing space_address ").concat(render_item(item).as_str())),
            );
        },
    };
    let request_id = match &attribute(item, ITEM_KEY).s {
        Some(v) => v.clone(),
        None => {
            return Err(BbDhtError::MissingData(String::from_str("message item missing request_id ").concat(render_item(item).as_str())));
        },
    };
    let is_response = match attribute(item, MESSAGE_IS_RESPONSE_KEY).bool {
        Some(v) => v,
        None => {
            return Err(
                BbDhtError::MissingData(String::from_str("message item missing response flag ").concat(render_item(item).as_str())),
            );
        },
    };
    Ok((DirectMessageData { content, from_agent_id, to_agent_id, request_id, space_address }, is_response))
}

/// The value of the attribute `key`, which the item has.
fn attribute<'a>(item: &'a Item, key: &str) -> (r: &'a AttributeValue)
    requires
        item@.contains_key(key@),
    ensures
        *r == item@[key@],
{
    match item.get(&String::from_str(key)) {
        Some(v) => v,
        None => vstd::pervasive::unreached(),
    }
}

/// `r` is the request that stores the message under its request id.
pub open spec fn puts_message(r: DbRequest, space: SpaceView, request_id: Seq<char>, from: Seq<char>, to: Seq<char>, content: Seq<u8>, response: bool) -> bool {
    r matches DbRequest::PutItem(p) && p.table_name@ == space.table_name
        && is_message_item(p.item@, space, request_id, from, to, content, response)
}

/// Where sending a direct message stands.
pub enum SendPhase {
    /// Storing the message under its request id.
    Putting,
    /// Filing the request id in the recipient's inbox.
    Appending,
    /// Finished.
    Finished,
}

/// Sending a direct message to an agent's inbox.
pub struct SendToAgentInbox {
    pub space: Space,
    pub request_id: RequestId,
    pub from: FromAddress,
    pub to: ToAddress,
    pub content: Vec<u8>,
    pub response: bool,
    pub phase: SendPhase,
}

/// Sends a direct message: stores it under its request id (sending the write
/// again while it fails in a way that may pass on a new try), then files the
/// request id in the folder of all messages of the recipient's inbox.
pub fn send_to_agent_inbox(
    space: &Space,
    request_id: &RequestId,
    from: &FromAddress,
    to: &ToAddress,
    content: &Vec<u8>,
    response: bool,
) -> (r: (SendToAgentInbox, DbRequest))
    ensures
        r.0.space@ == space@,
        r.0.request_id@ == request_id@,
        r.0.from@ == from@,
        r.0.to@ == to@,
        r.0.content@ == content@,
        r.0.response == response,
        r.0.phase is Putting,
        puts_message(r.1, space@, request_id@, from@, to@, content@, response),
{
    let send = SendToAgentInbox {
        space: space.copy(),
        request_id: request_id.copy(),
        from: FromAddress(from.0.clone()),
        to: ToAddress(to.0.clone()),
        content: copy_bytes(content),
        response,
        phase: SendPhase::Putting,
    };
    let request = send.put_request();
    (send, request)
}

impl SendToAgentInbox {
    fn put_request(&self) -> (r: DbRequest)
        ensures
            puts_message(r, self.space@, self.request_id@, self.from@, self.to@, self.content@, self.response),
    {
        DbRequest::PutItem(
            put_inbox_message(&self.space, &self.request_id, &self.from, &self.to, &self.content, self.response),
        )
    }

    /// Whether `reply` answers the request this operation waits for.
    pub open spec fn awaits(&self, reply: DbReply) -> bool {
        match self.phase {
            SendPhase::Putting => reply is PutItem,
            SendPhase::Appending => reply is UpdateItem,
            SendPhase::Finished => false,
        }
    }

    /// The next step after a reply.
    pub fn on_reply(self, reply: DbReply) -> (r: (SendToAgentInbox, Step<BbDhtResult<()>>))
        requires
            self.awaits(reply),
        ensures
            r.0.space@ == self.space@,
            r.0.request_id@ == self.request_id@,
            r.0.from@ == self.from@,
            r.0.to@ == self.to@,
            r.0.content@ == self.content@,
            r.0.response == self.response,
            match self.phase {
                SendPhase::Putting => match reply->PutItem_0 {
                    Ok(_) => r.0.phase is Appending && (r.1 matches Step::Send(DbRequest::UpdateItem(u))
                        && is_inbox_append(u, self.space@, ALL_MESSAGES_FOLDER@, self.request_id@, self.to@)),
                    Err(e) => if is_transient(e) {
                        r.0.phase is Putting && r.1 is Send && puts_message(r.1->Send_0, self.space@, self.request_id@, self.from@, self.to@, self.content@, self.response)
                    } else {
                        r.0.phase is Finished && r.1 == Step::<BbDhtResult<()>>::Done(Err(error_of(e)))
                    },
                },
                SendPhase::Appending => r.0.phase is Finished && match reply->UpdateItem_0 {
                    Ok(_) => r.1 == Step::<BbDhtResult<()>>::Done(Ok(())),
                    Err(e) => r.1 == Step::<BbDhtResult<()>>::Done(Err(error_of(e))),
                },
                SendPhase::Finished => false,
            },
    {
        let mut this = self;
        let mut phase = SendPhase::Finished;
        std::mem::swap(&mut phase, &mut this.phase);
        match phase {
            SendPhase::Putting => {
                let written = match reply {
                    DbReply::PutItem(w) => w,
                    _ => vstd::pervasive::unreached(),
                };
                match should_put_item_retry(written) {
                    Ok(true) => {
                        this.phase = SendPhase::Putting;
                        let request = this.put_request();
                        (this, Step::Send(request))
                    },
                    Ok(false) => {
                        this.phase = SendPhase::Appending;
                        let folder = Folder::new(ALL_MESSAGES_FOLDER);
                        let request = append_request_id_to_inbox(&this.space, &folder, &this.request_id, &this.to);
                        (this, Step::Send(DbRequest::UpdateItem(request)))
                    },
                    Err(err) => (this, Step::Done(Err(err))),
                }
            },
            SendPhase::Appending => {
                let written = match reply {
                    DbReply::UpdateItem(w) => w,
                    _ => vstd::pervasive::unreached(),
                };
                match written {
                    Ok(_) => (this, Step::Done(Ok(()))),
                    Err(e) => (this, Step::Done(Err(BbDhtError::from(e)))),
                }
            },
            SendPhase::Finished => vstd::pervasive::unreached(),
        }
    }
}

/// The views of a list of messages, each with its response flag.
pub open spec fn messages_view(s: Seq<(DirectMessageData, bool)>) -> Seq<(DirectMessageDataView, bool)> {
    s.map_values(|p: (DirectMessageData, bool)| (p.0@, p.1))
}

/// What fetching the message of `request_id` gives, from the reply to its read:
/// the message and its response flag, or the error. An item that lacks one of
/// the attributes a message is read from is missing data.
pub enum Fetched {
    Message((DirectMessageDataView, bool)),
    Failed(BbDhtError),
    MissingData(Seq<char>),
}

/// What fetching the message of `request_id` gives, from the reply to its read.
pub open spec fn fetched(reply: Result<Option<Item>, DbError>, request_id: Seq<char>) -> Fetched {
    match reply {
        Err(e) => Fetched::Failed(error_of(e)),
        Ok(None) => Fetched::MissingData("missing message for request id: "@ + request_id_text(request_id)),
        Ok(Some(item)) => if !has_message_attributes(item@) {
            Fetched::MissingData("message item missing attributes "@ + item_text(item))
        } else {
            match message_reading(item@, item_text(item)) {
                Reading::Value(v) => Fetched::Message(v),
                Reading::MissingData(m) => Fetched::MissingData(m),
                Reading::ParseError(m) => Fetched::MissingData(m),
            }
        },
    }
}

/// `r` is the failure that `f` describes.
pub open spec fn fails_as(r: BbDhtResult<Vec<(DirectMessageData, bool)>>, f: Fetched) -> bool {
    match f {
        Fetched::Failed(e) => r == Err::<Vec<(DirectMessageData, bool)>, BbDhtError>(e),
        Fetched::MissingData(m) => r matches Err(BbDhtError::MissingData(x)) && x@ == m,
        Fetched::Message(_) => false,
    }
}

/// The message of `request_id`, from the reply to its read.
pub fn fetch_message(reply: Result<Option<Item>, DbError>, request_id: &RequestId) -> (r: BbDhtResult<(DirectMessageData, bool)>)
    ensures
        match fetched(reply, request_id@) {
            Fetched::Message(v) => r matches Ok(p) && (p.0@, p.1) == v,
            Fetched::Failed(e) => r == Err::<(DirectMessageData, bool), BbDhtError>(e),
            Fetched::MissingData(m) => r matches Err(BbDhtError::MissingData(x)) && x@ == m,
        },
{
    match reply {
        Err(e) => Err(BbDhtError::from(e)),
        Ok(None) => Err(
            BbDhtError::MissingData(
                String::from_str("missing message for request id: ").concat(render_request_id(request_id).as_str()),
            ),
        ),
        Ok(Some(item)) => {
            if !item.contains_key(&String::from_str(MESSAGE_CONTENT_KEY)) || !item.contains_key(&String::from_str(MESSAGE_FROM_KEY))
                || !item.contains_key(&String::from_str(MESSAGE_TO_KEY)) || !item.contains_key(&String::from_str(SPACE_KEY))
                || !item.contains_key(&String::from_str(ITEM_KEY)) || !item.contains_key(&String::from_str(MESSAGE_IS_RESPONSE_KEY)) {
                Err(BbDhtError::MissingData(String::from_str("message item missing attributes ").concat(render_item(&item).as_str())))
            } else {
                match item_to_direct_message_data(&item) {
                    Ok(message) => Ok(message),
                    Err(BbDhtError::ParseError(m)) => Err(BbDhtError::MissingData(m)),
                    Err(err) => Err(err),
                }
            }
        },
    }
}

/// A copy of a list of request ids.
fn copy_request_ids(ids: &Vec<RequestId>) -> (r: Vec<RequestId>)
    ensures
        r@.len() == ids@.len(),
        ids_view(r@) == ids_view(ids@),
{
    let mut r: Vec<RequestId> = Vec::new();
    let mut i: usize = 0;
    while i < ids.len()
        invariant
            i <= ids@.len(),
            r@.len() == i,
            forall|j: int| 0 <= j < i ==> (#[trigger] r@[j])@ == ids@[j]@,
        decreases ids@.len() - i,
    {
        r.push(ids[i].copy());
        i = i + 1;
    }
    assert(ids_view(r@) =~= ids_view(ids@));
    r
}

/// `r` is the request that reads the message of `request_id`.
pub open spec fn reads_message(r: DbRequest, space: SpaceView, request_id: Seq<char>) -> bool {
    r matches DbRequest::GetItem(g) && reads_item(g, space, request_id)
}

/// Fetching the messages of a list of request ids: the space, the request ids,
/// the index of the one being fetched, and the messages fetched so far.
pub struct RequestIdsToMessages {
    pub space: Space,
    pub request_ids: Vec<RequestId>,
    pub next: usize,
    pub found: Vec<(DirectMessageData, bool)>,
}

/// Fetches the messages of `request_ids`, in order, stopping at the first that
/// fails: whose read fails, that is not there, or that is not a message. With
/// no request ids there is nothing to fetch, and no message.
pub fn request_ids_to_messages(space: &Space, request_ids: &Vec<RequestId>) -> (r: (
    RequestIdsToMessages,
    Step<BbDhtResult<Vec<(DirectMessageData, bool)>>>,
))
    ensures
        r.0.space@ == space@,
        r.0.request_ids@.len() == request_ids@.len(),
        ids_view(r.0.request_ids@) == ids_view(request_ids@),
        if request_ids@.len() == 0 {
            r.1 matches Step::Done(Ok(m)) && m@.len() == 0
        } else {
            &&& r.0.wf()
            &&& r.0.next == 0
            &&& r.1 is Send
            &&& reads_message(r.1->Send_0, space@, request_ids@[0]@)
        },
{
    let fetch = RequestIdsToMessages {
        space: space.copy(),
        request_ids: copy_request_ids(request_ids),
        next: 0,
        found: Vec::new(),
    };
    if request_ids.len() == 0 {
        (fetch, Step::Done(Ok(Vec::new())))
    } else {
        assert(ids_view(fetch.request_ids@)[0] == ids_view(request_ids@)[0]);
        let request = fetch.message_request();
        (fetch, Step::Send(request))
    }
}

impl RequestIdsToMessages {
    /// The index is within the request ids, and each request id before it gave a message.
    pub open spec fn wf(&self) -> bool {
        self.next < self.request_ids@.len() && self.found@.len() == self.next
    }

    fn message_request(&self) -> (r: DbRequest)
        requires
            self.next < self.request_ids@.len(),
        ensures
            reads_message(r, self.space@, self.request_ids@[self.next as int]@),
    {
        DbRequest::GetItem(
            get_item_from_space(&self.space, &ItemKey(self.request_ids[self.next].0.clone())),
        )
    }

    /// The next step after the read of the message of the request id at `next`.
    pub fn on_reply(self, reply: DbReply) -> (r: (
        RequestIdsToMessages,
        Step<BbDhtResult<Vec<(DirectMessageData, bool)>>>,
    ))
        requires
            self.wf(),
            reply is GetItem,
        ensures
            r.0.space@ == self.space@,
            r.0.request_ids@.len() == self.request_ids@.len(),
            ids_view(r.0.request_ids@) == ids_view(self.request_ids@),
            match fetched(reply->GetItem_0, self.request_ids@[self.next as int]@) {
                Fetched::Message(v) => if self.next + 1 < self.request_ids@.len() {
                    &&& r.0.wf()
                    &&& r.0.next == self.next + 1
                    &&& messages_view(r.0.found@) == messages_view(self.found@).push(v)
                    &&& r.1 is Send
                    &&& reads_message(r.1->Send_0, self.space@, self.request_ids@[self.next + 1]@)
                } else {
                    r.1 matches Step::Done(Ok(m)) && messages_view(m@) == messages_view(self.found@).push(v)
                },
                f => r.1 matches Step::Done(o) && fails_as(o, f),
            },
    {
        let mut this = self;
        let read = match reply {
            DbReply::GetItem(g) => g,
            _ => vstd::pervasive::unreached(),
        };
        match fetch_message(read, &this.request_ids[this.next]) {
            Ok(message) => {
                let ghost before = this.found@;
                let ghost v = (message.0@, message.1);
                this.found.push(message);
                proof {
                    assert(messages_view(this.found@) =~= messages_view(before).push(v));
                }
                if this.request_ids.len() - this.next > 1 {
                    this.next = this.next + 1;
                    let request = this.message_request();
                    (this, Step::Send(request))
                } else {
                    let mut found: Vec<(DirectMessageData, bool)> = Vec::new();
                    std::mem::swap(&mut found, &mut this.found);
                    (this, Step::Done(Ok(found)))
                }
            },
            Err(err) => (this, Step::Done(Err(err))),
        }
    }
}

/// Where checking an inbox stands.
pub enum CheckInboxPhase {
    /// Reading the folder of all messages.
    ReadingAll,
    /// Reading the folder of seen messages; the request ids of all messages.
    ReadingSeen(Vec<RequestId>),
    /// Fetching the unseen messages.
    Fetching(RequestIdsToMessages),
    /// Filing the unseen request ids as seen: the ids, the index of the one being
    /// filed, and what fetching the messages gave.
    Marking(Vec<RequestId>, usize, BbDhtResult<Vec<(DirectMessageData, bool)>>),
    /// Finished.
    Finished,
}

/// Checking an agent's inbox for messages it has not seen yet.
pub struct CheckInbox {
    pub space: Space,
    pub to: ToAddress,
    pub phase: CheckInboxPhase,
}

/// `r` is the request that reads the inbox of `to`.
pub open spec fn reads_inbox(r: DbRequest, space: SpaceView, to: Seq<char>) -> bool {
    r matches DbRequest::GetItem(g) && reads_item(g, space, INBOX_KEY_PREFIX@ + to)
}

/// `r` is the request that files `request_id` as seen in the inbox of `to`.
pub open spec fn files_seen(r: DbRequest, space: SpaceView, request_id: Seq<char>, to: Seq<char>) -> bool {
    r matches DbRequest::UpdateItem(u) && is_inbox_append(u, space, SEEN_MESSAGES_FOLDER@, request_id, to)
}

/// Checks the inbox of `to`: reads the request ids filed in its folder of all
/// messages, then those filed as seen; fetches the message of each request id
/// that is not seen, in inbox order, stopping at the first that fails; then files
/// every one of those request ids as seen, fetched or not, and gives the
/// messages, or the failure of the fetch. A failure to read a folder, or to file
/// a request id, ends the check with that failure.
pub fn check_inbox(space: &Space, to: &ToAddress) -> (r: (CheckInbox, DbRequest))
    ensures
        r.0.space@ == space@,
        r.0.to@ == to@,
        r.0.phase is ReadingAll,
        reads_inbox(r.1, space@, to@),
{
    let check = CheckInbox { space: space.copy(), to: ToAddress(to.0.clone()), phase: CheckInboxPhase::ReadingAll };
    let request = check.inbox_request();
    (check, request)
}

impl CheckInbox {
    fn inbox_request(&self) -> (r: DbRequest)
        ensures
            reads_inbox(r, self.space@, self.to@),
    {
        DbRequest::GetItem(get_inbox_request_ids(&self.space, &self.to))
    }

    fn seen_request(&self, request_id: &RequestId) -> (r: DbRequest)
        ensures
            files_seen(r, self.space@, request_id@, self.to@),
    {
        let folder = Folder::new(SEEN_MESSAGES_FOLDER);
        DbRequest::UpdateItem(append_request_id_to_inbox(&self.space, &folder, request_id, &self.to))
    }

    /// The phase's indices are within its lists.
    pub open spec fn wf(&self) -> bool {
        match self.phase {
            CheckInboxPhase::Fetching(f) => f.wf() && f.space@ == self.space@,
            CheckInboxPhase::Marking(ids, j, _) => j < ids@.len(),
            _ => true,
        }
    }

    /// Whether `reply` answers the request this operation waits for.
    pub open spec fn awaits(&self, reply: DbReply) -> bool {
        match self.phase {
            CheckInboxPhase::ReadingAll => reply is GetItem,
            CheckInboxPhase::ReadingSeen(_) => reply is GetItem,
            CheckInboxPhase::Fetching(_) => reply is GetItem,
            CheckInboxPhase::Marking(_, _, _) => reply is UpdateItem,
            CheckInboxPhase::Finished => false,
        }
    }

    /// Starts filing `ids` as seen, after fetching gave `outcome`.
    fn start_marking(self, ids: Vec<RequestId>, outcome: BbDhtResult<Vec<(DirectMessageData, bool)>>) -> (r: (CheckInbox, Step<BbDhtResult<Vec<(DirectMessageData, bool)>>>))
        requires
            ids@.len() > 0,
        ensures
            r.0.space@ == self.space@,
            r.0.to@ == self.to@,
            r.0.wf(),
            r.0.phase matches CheckInboxPhase::Marking(ids2, j, o) && ids_view(ids2@) == ids_view(ids@)
                && j == 0 && o == outcome,
            r.1 is Send && files_seen(r.1->Send_0, self.space@, ids@[0]@, self.to@),
    {
        let mut this = self;
        let request = this.seen_request(&ids[0]);
        this.phase = CheckInboxPhase::Marking(ids, 0, outcome);
        (this, Step::Send(request))
    }

    /// The next step after a reply.
    pub fn on_reply(self, reply: DbReply) -> (r: (CheckInbox, Step<BbDhtResult<Vec<(DirectMessageData, bool)>>>))
        requires
            self.wf(),
            self.awaits(reply),
        ensures
            r.0.space@ == self.space@,
            r.0.to@ == self.to@,
            r.0.wf(),
            match self.phase {
                CheckInboxPhase::ReadingAll => match reply->GetItem_0 {
                    Err(e) => r.0.phase is Finished && r.1 == Step::<BbDhtResult<Vec<(DirectMessageData, bool)>>>::Done(Err(error_of(e))),
                    Ok(item) => (r.0.phase matches CheckInboxPhase::ReadingSeen(all) && ids_view(all@) == folder_ids(
                        match item { Some(i) => Some(i@), None => None },
                        ALL_MESSAGES_FOLDER@,
                    )) && r.1 is Send && reads_inbox(r.1->Send_0, self.space@, self.to@),
                },
                CheckInboxPhase::ReadingSeen(all) => match reply->GetItem_0 {
                    Err(e) => r.0.phase is Finished && r.1 == Step::<BbDhtResult<Vec<(DirectMessageData, bool)>>>::Done(Err(error_of(e))),
                    Ok(item) => {
                        let ids = unseen(ids_view(all@), folder_ids(
                            match item { Some(i) => Some(i@), None => None },
                            SEEN_MESSAGES_FOLDER@,
                        ));
                        if ids.len() == 0 {
                            r.0.phase is Finished && (r.1 matches Step::Done(Ok(m)) && m@.len() == 0)
                        } else {
                            (r.0.phase matches CheckInboxPhase::Fetching(f) && ids_view(f.request_ids@) == ids
                                && f.next == 0 && f.found@.len() == 0)
                                && r.1 is Send && reads_message(r.1->Send_0, self.space@, ids[0])
                        }
                    },
                },
                CheckInboxPhase::Fetching(f) => match fetched(reply->GetItem_0, f.request_ids@[f.next as int]@) {
                    Fetched::Message(v) => if f.next + 1 < f.request_ids@.len() {
                        (r.0.phase matches CheckInboxPhase::Fetching(f2) && ids_view(f2.request_ids@) == ids_view(f.request_ids@)
                            && f2.next == f.next + 1 && messages_view(f2.found@) == messages_view(f.found@).push(v))
                            && r.1 is Send && reads_message(r.1->Send_0, self.space@, f.request_ids@[f.next + 1]@)
                    } else {
                        (r.0.phase matches CheckInboxPhase::Marking(ids2, j, o) && ids_view(ids2@) == ids_view(f.request_ids@)
                            && j == 0 && (o matches Ok(found2) && messages_view(found2@) == messages_view(f.found@).push(v)))
                            && r.1 is Send && files_seen(r.1->Send_0, self.space@, f.request_ids@[0]@, self.to@)
                    },
                    failure => (r.0.phase matches CheckInboxPhase::Marking(ids2, j, o) && ids_view(ids2@) == ids_view(f.request_ids@)
                            && j == 0 && fails_as(o, failure))
                            && r.1 is Send && files_seen(r.1->Send_0, self.space@, f.request_ids@[0]@, self.to@),
                },
                CheckInboxPhase::Marking(ids, j, outcome) => match reply->UpdateItem_0 {
                    Err(e) => r.0.phase is Finished && r.1 == Step::<BbDhtResult<Vec<(DirectMessageData, bool)>>>::Done(Err(error_of(e))),
                    Ok(_) => if j + 1 < ids@.len() {
                        (r.0.phase matches CheckInboxPhase::Marking(ids2, j2, o) && ids_view(ids2@) == ids_view(ids@)
                            && j2 == j + 1 && o == outcome)
                            && r.1 is Send && files_seen(r.1->Send_0, self.space@, ids@[j + 1]@, self.to@)
                    } else {
                        r.0.phase is Finished && r.1 == Step::<BbDhtResult<Vec<(DirectMessageData, bool)>>>::Done(outcome)
                    },
                },
                CheckInboxPhase::Finished => false,
            },
    {
        let mut this = self;
        let mut phase = CheckInboxPhase::Finished;
        std::mem::swap(&mut phase, &mut this.phase);
        assert(phase == self.phase);
        let read = match reply {
            DbReply::GetItem(g) => Some(g),
            DbReply::UpdateItem(u) => {
                match phase {
                    CheckInboxPhase::Marking(ids, j, outcome) => {
                        return match u {
                            Err(e) => (this, Step::Done(Err(BbDhtError::from(e)))),
                            Ok(_) => if ids.len() - j > 1 {
                                let request = this.seen_request(&ids[j + 1]);
                                this.phase = CheckInboxPhase::Marking(ids, j + 1, outcome);
                                (this, Step::Send(request))
                            } else {
                                (this, Step::Done(outcome))
                            },
                        };
                    },
                    _ => vstd::pervasive::unreached(),
                }
            },
            _ => vstd::pervasive::unreached(),
        };
        let read = match read {
            Some(g) => g,
            None => vstd::pervasive::unreached(),
        };
        match phase {
            CheckInboxPhase::ReadingAll => {
                let all_folder = Folder::new(ALL_MESSAGES_FOLDER);
                match inbox_request_ids(&all_folder, read) {
                    Err(err) => (this, Step::Done(Err(err))),
                    Ok(all) => {
                        this.phase = CheckInboxPhase::ReadingSeen(all);
                        let request = this.inbox_request();
                        (this, Step::Send(request))
                    },
                }
            },
            CheckInboxPhase::ReadingSeen(all) => {
                let seen_folder = Folder::new(SEEN_MESSAGES_FOLDER);
                match inbox_request_ids(&seen_folder, read) {
                    Err(err) => (this, Step::Done(Err(err))),
                    Ok(seen) => {
                        let ids = unseen_request_ids(&all, &seen);
                        let (fetch, step) = request_ids_to_messages(&this.space, &ids);
                        match step {
                            Step::Send(request) => {
                                this.phase = CheckInboxPhase::Fetching(fetch);
                                (this, Step::Send(request))
                            },
                            Step::Done(outcome) => (this, Step::Done(outcome)),
                        }
                    },
                }
            },
            CheckInboxPhase::Fetching(fetch) => {
                let ghost before = fetch.request_ids@;
                let (fetch, step) = fetch.on_reply(DbReply::GetItem(read));
                match step {
                    Step::Send(request) => {
                        this.phase = CheckInboxPhase::Fetching(fetch);
                        (this, Step::Send(request))
                    },
                    Step::Done(outcome) => {
                        assert(ids_view(fetch.request_ids@)[0] == ids_view(before)[0]);
                        this.start_marking(fetch.request_ids, outcome)
                    },
                }
            },
            _ => vstd::pervasive::unreached(),
        }
    }
}

/// A message stored by `put_inbox_message` reads back as the same message: the
/// item that stores it holds every attribute a message is read from, and reads
/// as the message, from the space it was stored in and under its request id.
pub proof fn lemma_message_round_trip(
    item: Item,
    space: SpaceView,
    request_id: Seq<char>,
    from: Seq<char>,
    to: Seq<char>,
    content: Seq<u8>,
    response: bool,
)
    requires
        is_message_item(item@, space, request_id, from, to, content, response),
    ensures
        has_message_attributes(item@),
        fetched(Ok(Some(item)), request_id) == Fetched::Message(
            (
                DirectMessageDataView {
                    space_address: space.space_hash,
                    request_id,
                    to_agent_id: to,
                    from_agent_id: from,
                    content,
                },
                response,
            ),
        ),
{
}

/// What checking an inbox reads back of a message that sending stored. The read
/// of the message of `request_id` asks the table that the message went to for the
/// partition key that the stored item is under; and that item, given back, is
/// fetched as the message that was sent.
pub proof fn lemma_fetch_after_put_message(
    space: SpaceView,
    request_id: Seq<char>,
    from: Seq<char>,
    to: Seq<char>,
    content: Seq<u8>,
    response: bool,
    put: PutItemInput,
    read: DbRequest,
)
    requires
        puts_message(DbRequest::PutItem(put), space, request_id, from, to, content, response),
        reads_message(read, space, request_id),
    ensures
        read matches DbRequest::GetItem(g) && g.table_name@ == put.table_name@
            && g.key@[PARTITION_KEY@].s->0@ == put.item@[PARTITION_KEY@].s->0@,
        fetched(Ok(Some(put.item)), request_id) == Fetched::Message(
            (
                DirectMessageDataView {
                    space_address: space.space_hash,
                    request_id,
                    to_agent_id: to,
                    from_agent_id: from,
                    content,
                },
                response,
            ),
        ),
{
    lemma_message_round_trip(put.item, space, request_id, from, to, content, response);
}

/// The ids filed in a folder, as a set, are the texts of the folder's string set.
proof fn lemma_folder_ids_set(inbox: Option<Map<Seq<char>, AttributeValue>>, folder: Seq<char>)
    ensures
        folder_ids(inbox, folder).to_set() == string_set_of(inbox, folder),
{
    assert(folder_ids(inbox, folder).to_set() =~= string_set_of(inbox, folder));
}

/// Filing a request id in a folder of an inbox, whatever the inbox held: the
/// read of the inbox asks the table that the update went to for the partition
/// key of the updated item; and, as the database applies the update's ADD, the
/// folder then files the ids it filed before and the new one, each once, while
/// every other folder files what it filed before.
pub proof fn lemma_inbox_after_append(
    space: SpaceView,
    folder: Seq<char>,
    request_id: Seq<char>,
    to: Seq<char>,
    update: UpdateItemInput,
    get: GetItemInput,
    before: Option<Map<Seq<char>, AttributeValue>>,
    after: Map<Seq<char>, AttributeValue>,
)
    requires
        is_inbox_append(update, space, folder, request_id, to),
        reads_item(get, space, INBOX_KEY_PREFIX@ + to),
        adds_string_set(before, update.key@, folder, seq![request_id], after),
    ensures
        get.table_name@ == update.table_name@,
        get.key@[PARTITION_KEY@].s->0@ == update.key@[PARTITION_KEY@].s->0@,
        folder_ids(Some(after), folder).to_set() == folder_ids(before, folder).to_set().insert(request_id),
        folder_ids(Some(after), folder).no_duplicates(),
        forall|other: Seq<char>|
            other != folder ==> #[trigger] folder_ids(Some(after), other) == folder_ids(before, other),
{
    lemma_folder_ids_set(Some(after), folder);
    lemma_folder_ids_set(before, folder);
    lemma_singleton_to_set(request_id);
    assert(folder_ids(before, folder).to_set().insert(request_id) =~= folder_ids(before, folder).to_set()
        + set![request_id]);
    let base = match before {
        Some(m) => m,
        None => update.key@,
    };
    assert forall|other: Seq<char>| other != folder implies #[trigger] folder_ids(Some(after), other)
        == folder_ids(before, other) by {
        assert(after.remove(folder).contains_key(other) == after.contains_key(other));
        assert(base.remove(folder).contains_key(other) == base.contains_key(other));
        if after.contains_key(other) {
            assert(after.remove(folder)[other] == after[other]);
            assert(base.remove(folder)[other] == base[other]);
        }
        if before is None && base.contains_key(other) {
            assert(other == PARTITION_KEY@);
        }
    }
}

/// A text alone, as a set.
proof fn lemma_singleton_to_set(x: Seq<char>)
    ensures
        seq![x].to_set() == set![x],
{
    assert forall|y: Seq<char>| seq![x].to_set().contains(y) <==> set![x].contains(y) by {
        if y == x {
            assert(seq![x][0] == x);
        }
    }
    assert(seq![x].to_set() =~= set![x]);
}

/// `states` are the inbox items, at the key `key`, before and after each of
/// the filings of `ids` as seen, in order, as the database applies each
/// filing's ADD.
pub open spec fn files_each_seen(
    key: Map<Seq<char>, AttributeValue>,
    states: Seq<Option<Map<Seq<char>, AttributeValue>>>,
    ids: Seq<Seq<char>>,
) -> bool {
    &&& states.len() == ids.len() + 1
    &&& forall|j: int|
        #![trigger ids[j]]
        0 <= j < ids.len() ==> states[j + 1] is Some && adds_string_set(
            states[j],
            key,
            SEEN_MESSAGES_FOLDER@,
            seq![ids[j]],
            states[j + 1]->0,
        )
}

/// The state of an inbox after the first `k` filings of a check: the folder of
/// all messages as it was, and the seen folder filing the ids it filed and the
/// first `k` newly seen ones.
proof fn lemma_seen_filings(
    key: Map<Seq<char>, AttributeValue>,
    states: Seq<Option<Map<Seq<char>, AttributeValue>>>,
    ids: Seq<Seq<char>>,
    k: int,
)
    requires
        key.dom() == set![PARTITION_KEY@],
        files_each_seen(key, states, ids),
        0 <= k <= ids.len(),
    ensures
        folder_ids(states[k], ALL_MESSAGES_FOLDER@) == folder_ids(states[0], ALL_MESSAGES_FOLDER@),
        folder_ids(states[k], SEEN_MESSAGES_FOLDER@).to_set() == folder_ids(states[0], SEEN_MESSAGES_FOLDER@).to_set()
            + ids.subrange(0, k).to_set(),
    decreases k,
{
    lemma_attribute_name_lengths();
    let all = ALL_MESSAGES_FOLDER@;
    let seen = SEEN_MESSAGES_FOLDER@;
    if k == 0 {
        assert(ids.subrange(0, 0).to_set() =~= Set::<Seq<char>>::empty());
        assert(folder_ids(states[0], seen).to_set() + Set::<Seq<char>>::empty() =~= folder_ids(states[0], seen).to_set());
    } else {
        lemma_seen_filings(key, states, ids, k - 1);
        let j = k - 1;
        let x = ids[j];
        assert(states[j + 1] is Some && adds_string_set(states[j], key, seen, seq![x], states[j + 1]->0));
        let after = states[k]->0;
        assert(states[k] == Some(after));
        let base = match states[j] {
            Some(m) => m,
            None => key,
        };
        assert(after.remove(seen).contains_key(all) == after.contains_key(all));
        assert(base.remove(seen).contains_key(all) == base.contains_key(all));
        if after.contains_key(all) {
            assert(after.remove(seen)[all] == after[all]);
            assert(base.remove(seen)[all] == base[all]);
        }
        if states[j] is None {
            assert(!key.contains_key(all));
        }
        assert(folder_ids(states[k], all) == folder_ids(states[j], all));
        lemma_folder_ids_set(states[k], seen);
        lemma_folder_ids_set(states[j], seen);
        lemma_singleton_to_set(x);
        assert(ids.subrange(0, k).to_set() =~= ids.subrange(0, j).to_set() + set![x]) by {
            assert forall|y: Seq<char>| ids.subrange(0, k).contains(y) <==> (ids.subrange(0, j).contains(y) || y == x) by {
                if ids.subrange(0, k).contains(y) {
                    let i = choose|i: int| 0 <= i < k && ids.subrange(0, k)[i] == y;
                    if i < j {
                        assert(ids.subrange(0, j)[i] == y);
                    }
                }
                if ids.subrange(0, j).contains(y) {
                    let i = choose|i: int| 0 <= i < j && ids.subrange(0, j)[i] == y;
                    assert(ids.subrange(0, k)[i] == y);
                }
                if y == x {
                    assert(ids.subrange(0, k)[j] == y);
                }
            }
        }
        assert(folder_ids(states[k], seen).to_set() =~= folder_ids(states[0], seen).to_set() + ids.subrange(0, k).to_set());
    }
}

/// Checking an inbox delivers each message once. Let the inbox file `A` among
/// all messages and `S` as seen, and let the check file its unseen ids (those
/// of `A` not in `S`, in the order of `A`) as seen, one at a time, as the
/// database applies each filing's ADD. Then the folder of all messages still
/// files `A`, the seen folder files `S` and the newly seen ids, and a check of
/// the inbox that follows finds no unseen id.
pub proof fn lemma_check_inbox_delivers_once(
    key: Map<Seq<char>, AttributeValue>,
    states: Seq<Option<Map<Seq<char>, AttributeValue>>>,
    ids: Seq<Seq<char>>,
)
    requires
        key.dom() == set![PARTITION_KEY@],
        ids == unseen(
            folder_ids(states[0], ALL_MESSAGES_FOLDER@),
            folder_ids(states[0], SEEN_MESSAGES_FOLDER@),
        ),
        files_each_seen(key, states, ids),
    ensures
        folder_ids(states.last(), ALL_MESSAGES_FOLDER@) == folder_ids(states[0], ALL_MESSAGES_FOLDER@),
        folder_ids(states.last(), SEEN_MESSAGES_FOLDER@).to_set() == folder_ids(states[0], SEEN_MESSAGES_FOLDER@).to_set()
            + ids.to_set(),
        unseen(
            folder_ids(states.last(), ALL_MESSAGES_FOLDER@),
            folder_ids(states.last(), SEEN_MESSAGES_FOLDER@),
        ) == Seq::<Seq<char>>::empty(),
{
    let n = ids.len() as int;
    lemma_seen_filings(key, states, ids, n);
    assert(ids.subrange(0, n) =~= ids);
    let a = folder_ids(states[0], ALL_MESSAGES_FOLDER@);
    let s0 = folder_ids(states[0], SEEN_MESSAGES_FOLDER@);
    let s1 = folder_ids(states.last(), SEEN_MESSAGES_FOLDER@);
    assert(states.last() == states[n]);
    assert forall|x: Seq<char>| !unseen(a, s1).contains(x) by {
        lemma_unseen_contains(a, s1, x);
        lemma_unseen_contains(a, s0, x);
        if a.contains(x) {
            if s0.contains(x) {
                assert(s0.to_set().contains(x));
            } else {
                assert(ids.to_set().contains(x));
            }
            assert(s1.to_set().contains(x));
        }
    }
    if unseen(a, s1).len() > 0 {
        assert(unseen(a, s1).contains(unseen(a, s1)[0]));
    }
    assert(unseen(a, s1) =~= Seq::<Seq<char>>::empty());
}

/// Sending a message to an inbox that was never written, then checking it: the
/// folder of all messages files just the message's request id, nothing is
/// seen, so the check fetches that request id alone; and the message item that
/// sending stored is fetched as the message that was sent.
pub proof fn lemma_send_then_check(
    space: SpaceView,
    request_id: Seq<char>,
    from: Seq<char>,
    to: Seq<char>,
    content: Seq<u8>,
    response: bool,
    put: PutItemInput,
    append: UpdateItemInput,
    inbox: Map<Seq<char>, AttributeValue>,
)
    requires
        puts_message(DbRequest::PutItem(put), space, request_id, from, to, content, response),
        is_inbox_append(append, space, ALL_MESSAGES_FOLDER@, request_id, to),
        adds_string_set(None, append.key@, ALL_MESSAGES_FOLDER@, seq![request_id], inbox),
    ensures
        folder_ids(Some(inbox), ALL_MESSAGES_FOLDER@) == seq![request_id],
        folder_ids(Some(inbox), SEEN_MESSAGES_FOLDER@) == Seq::<Seq<char>>::empty(),
        unseen(
            folder_ids(Some(inbox), ALL_MESSAGES_FOLDER@),
            folder_ids(Some(inbox), SEEN_MESSAGES_FOLDER@),
        ) == seq![request_id],
        fetched(Ok(Some(put.item)), request_id) == Fetched::Message(
            (
                DirectMessageDataView {
                    space_address: space.space_hash,
                    request_id,
                    to_agent_id: to,
                    from_agent_id: from,
                    content,
                },
                response,
            ),
        ),
{
    lemma_attribute_name_lengths();
    lemma_message_round_trip(put.item, space, request_id, from, to, content, response);
    let all = ALL_MESSAGES_FOLDER@;
    let seen = SEEN_MESSAGES_FOLDER@;
    let ids = folder_ids(Some(inbox), all);
    lemma_folder_ids_set(Some(inbox), all);
    lemma_singleton_to_set(request_id);
    assert(ids.to_set() =~= set![request_id]);
    ids.unique_seq_to_set();
    assert(ids.to_set().contains(request_id));
    assert(ids.len() == 1);
    assert(ids.contains(ids[0]));
    assert(ids.to_set().contains(ids[0]));
    assert(ids =~= seq![request_id]);
    assert(inbox.remove(all).contains_key(seen) == inbox.contains_key(seen));
    assert(append.key@.remove(all).contains_key(seen) == append.key@.contains_key(seen));
    assert(!inbox.contains_key(seen));
    let e = Seq::<Seq<char>>::empty();
    assert(seq![request_id].drop_last() =~= e);
    assert(!e.contains(request_id));
    assert(unseen(e, e) == e);
    assert(unseen(seq![request_id], e) =~= seq![request_id]);
}

} // verus!
