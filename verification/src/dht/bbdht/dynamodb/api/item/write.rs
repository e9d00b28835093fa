//! Writing items.
use crate::dht::bbdht::dynamodb::api::item::{keyed_as, keyed_item, Item, ItemKey};
use crate::agent::AgentAddress;
use crate::data_types::EntryAspectData;
use crate::dht::bbdht::dynamodb::api::agent::inbox::{put_inbox_message, puts_message, FromAddress, ToAddress};
use crate::dht::bbdht::dynamodb::api::agent::write::touch_agent;
use crate::dht::bbdht::dynamodb::api::aspect::write::{is_aspect_item, put_aspect};
use crate::dht::bbdht::dynamodb::request::{DbReply, DbRequest, PutItemInput, Step};
use crate::network::RequestId;
use crate::space::SpaceView;
use crate::dht::bbdht::dynamodb::schema::cas::{lemma_attribute_name_lengths, CONTENT_KEY, PARTITION_KEY};
use crate::dht::bbdht::dynamodb::schema::{holds_string, string_attribute_value};
use crate::dht::bbdht::error::{error_of, is_transient, BbDhtError, BbDhtResult, DbError};
use crate::space::Space;
use vstd::prelude::*;

verus! {

/// The item that stores `content` at `address` in `space`: the key of the
/// address, and the content, verbatim.
pub fn content_to_item(space: &Space, address: &String, content: &String) -> (r: Item)
    ensures
        r@.dom() == set![PARTITION_KEY@, CONTENT_KEY@],
        keyed_as(r@, space@, address@),
        holds_string(r@[CONTENT_KEY@], content@),
{
    proof {
        lemma_attribute_name_lengths();
    }
    let mut item = keyed_item(space, &ItemKey(address.clone()));
    item.insert(String::from_str(CONTENT_KEY), string_attribute_value(content));
    assert(item@.dom() =~= set![PARTITION_KEY@, CONTENT_KEY@]);
    item
}

/// The request that stores `content` at `address` in `space`.
pub fn ensure_content(space: &Space, address: &String, content: &String) -> (r: PutItemInput)
    ensures
        r.table_name@ == space@.table_name,
        r.item@.dom() == set![PARTITION_KEY@, CONTENT_KEY@],
        keyed_as(r.item@, space@, address@),
        holds_string(r.item@[CONTENT_KEY@], content@),
{
    PutItemInput {
        item: content_to_item(space, address, content),
        table_name: space.connection().table_name().as_string().clone(),
    }
}

/// What to do after a write: send it again (`Ok(true)`) when it failed in a way
/// that may pass on a new try, stop (`Ok(false)`) when it succeeded, and fail
/// with the matching DHT error otherwise.
pub fn should_put_item_retry(put_item_result: Result<(), DbError>) -> (r: BbDhtResult<bool>)
    ensures
        match put_item_result {
            Ok(_) => r == Ok::<bool, BbDhtError>(false),
            Err(e) => if is_transient(e) {
                r == Ok::<bool, BbDhtError>(true)
            } else {
                r == Err::<bool, BbDhtError>(error_of(e))
            },
        },
{
    match put_item_result {
        Ok(_) => Ok(false),
        Err(DbError::Service(service_error)) => match service_error {
            crate::dht::bbdht::error::ServiceError::InternalServerError(_) => Ok(true),
            crate::dht::bbdht::error::ServiceError::ProvisionedThroughputExceeded(_) => Ok(true),
            crate::dht::bbdht::error::ServiceError::RequestLimitExceeded(_) => Ok(true),
            crate::dht::bbdht::error::ServiceError::TransactionConflict(_) => Ok(true),
            other => Err(BbDhtError::from(DbError::Service(other))),
        },
        Err(err) => Err(BbDhtError::from(err)),
    }
}

/// A single write that is sent again while it fails in a way that may pass on
/// a new try: recording an agent, storing an aspect, or storing a message.
pub enum Write {
    Agent(AgentAddress),
    Aspect(EntryAspectData),
    Message(RequestId, FromAddress, ToAddress, Vec<u8>, bool),
}

/// `r` is the request that makes the write `w` in `space`.
pub open spec fn writes(r: DbRequest, space: SpaceView, w: Write) -> bool {
    match w {
        Write::Agent(agent_address) => r matches DbRequest::PutItem(p) && p.table_name@ == space.table_name
            && p.item@.dom() == set![PARTITION_KEY@] && keyed_as(p.item@, space, agent_address@),
        Write::Aspect(aspect) => r matches DbRequest::PutItem(p) && p.table_name@ == space.table_name
            && is_aspect_item(p.item@, space, aspect@),
        Write::Message(request_id, from, to, content, response) => puts_message(
            r,
            space,
            request_id@,
            from@,
            to@,
            content@,
            response,
        ),
    }
}

/// Making a write until it is done.
pub struct WriteUntilDone {
    pub space: Space,
    pub write: Write,
}

/// Makes the write `write` in `space`: sends it, and sends it again while it
/// fails in a way that may pass on a new try (see `should_put_item_retry`).
pub fn write_until_done(space: &Space, write: Write) -> (r: (WriteUntilDone, DbRequest))
    ensures
        r.0.space@ == space@,
        r.0.write == write,
        writes(r.1, space@, write),
{
    let op = WriteUntilDone { space: space.copy(), write };
    let request = op.request();
    (op, request)
}

impl WriteUntilDone {
    fn request(&self) -> (r: DbRequest)
        ensures
            writes(r, self.space@, self.write),
    {
        match &self.write {
            Write::Agent(agent_address) => DbRequest::PutItem(touch_agent(&self.space, agent_address)),
            Write::Aspect(aspect) => DbRequest::PutItem(put_aspect(&self.space, aspect)),
            Write::Message(request_id, from, to, content, response) => DbRequest::PutItem(
                put_inbox_message(&self.space, request_id, from, to, content, *response),
            ),
        }
    }

    /// After the reply to the write: done when it succeeded, the write again
    /// when it failed in a way that may pass on a new try, else the error.
    pub fn on_reply(self, reply: DbReply) -> (r: (WriteUntilDone, Step<BbDhtResult<()>>))
        requires
            reply is PutItem,
        ensures
            r.0 == self,
            match reply->PutItem_0 {
                Ok(_) => r.1 == Step::<BbDhtResult<()>>::Done(Ok(())),
                Err(e) => if is_transient(e) {
                    r.1 is Send && writes(r.1->Send_0, self.space@, self.write)
                } else {
                    r.1 == Step::<BbDhtResult<()>>::Done(Err(error_of(e)))
                },
            },
    {
        let result = match reply {
            DbReply::PutItem(result) => result,
            _ => vstd::pervasive::unreached(),
        };
        match should_put_item_retry(result) {
            Ok(true) => {
                let request = self.request();
                (self, Step::Send(request))
            },
            Ok(false) => (self, Step::Done(Ok(()))),
            Err(err) => (self, Step::Done(Err(err))),
        }
    }
}

} // verus!
