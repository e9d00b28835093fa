//! Whether an agent is in a space.
use crate::agent::AgentAddress;
use crate::dht::bbdht::dynamodb::api::agent::inbox::reads_item;
use crate::dht::bbdht::dynamodb::api::item::read::get_item_from_space;
use crate::dht::bbdht::dynamodb::api::item::ItemKey;
use crate::dht::bbdht::dynamodb::api::table::create::describes;
use crate::dht::bbdht::dynamodb::api::table::exist::{existence, table_exists, table_exists_reply};
use crate::dht::bbdht::dynamodb::request::{DbReply, DbRequest, Step};
use crate::dht::bbdht::error::{error_of, BbDhtError, BbDhtResult};
use crate::space::Space;
use vstd::prelude::*;

verus! {

/// Where asking for an agent stands.
pub enum AgentExistsPhase {
    /// Asking whether the space's table exists.
    CheckingSpace,
    /// Reading the agent's item.
    ReadingAgent,
    /// Finished.
    Finished,
}

/// Asking whether an agent is in a space.
pub struct AgentExists {
    pub space: Space,
    pub agent_address: AgentAddress,
    pub phase: AgentExistsPhase,
}

/// Asks whether the agent is in the space: an agent is in a space only when the
/// space exists and holds the agent's item.
pub fn agent_exists(space: &Space, agent_address: &AgentAddress) -> (r: (AgentExists, DbRequest))
    ensures
        r.0.space@ == space@,
        r.0.agent_address@ == agent_address@,
        r.0.phase is CheckingSpace,
        describes(r.1, space@.table_name),
{
    let ask = AgentExists {
        space: space.copy(),
        agent_address: agent_address.copy(),
        phase: AgentExistsPhase::CheckingSpace,
    };
    let request = DbRequest::DescribeTable(table_exists(space.connection().table_name()));
    (ask, request)
}

impl AgentExists {
    /// Whether `reply` answers the request this operation waits for.
    pub open spec fn awaits(&self, reply: DbReply) -> bool {
        match self.phase {
            AgentExistsPhase::CheckingSpace => reply is DescribeTable,
            AgentExistsPhase::ReadingAgent => reply is GetItem,
            AgentExistsPhase::Finished => false,
        }
    }

    /// The next step after a reply.
    pub fn on_reply(self, reply: DbReply) -> (r: (AgentExists, Step<BbDhtResult<bool>>))
        requires
            self.awaits(reply),
        ensures
            r.0.space@ == self.space@,
            r.0.agent_address@ == self.agent_address@,
            match self.phase {
                AgentExistsPhase::CheckingSpace => match existence(reply->DescribeTable_0) {
                    Ok(true) => r.0.phase is ReadingAgent && (r.1 matches Step::Send(DbRequest::GetItem(g))
                        && reads_item(g, self.space@, self.agent_address@)),
                    Ok(false) => r.0.phase is Finished && r.1 == Step::<BbDhtResult<bool>>::Done(Ok(false)),
                    Err(e) => r.0.phase is Finished && r.1 == Step::<BbDhtResult<bool>>::Done(Err(e)),
                },
                AgentExistsPhase::ReadingAgent => r.0.phase is Finished && match reply->GetItem_0 {
                    Ok(item) => r.1 == Step::<BbDhtResult<bool>>::Done(Ok(item is Some)),
                    Err(e) => r.1 == Step::<BbDhtResult<bool>>::Done(Err(error_of(e))),
                },
                AgentExistsPhase::Finished => false,
            },
    {
        let mut this = self;
        let mut phase = AgentExistsPhase::Finished;
        std::mem::swap(&mut phase, &mut this.phase);
        match (phase, reply) {
            (AgentExistsPhase::CheckingSpace, DbReply::DescribeTable(description)) => {
                match table_exists_reply(description) {
                    Ok(true) => {
                        this.phase = AgentExistsPhase::ReadingAgent;
                        let request = get_item_from_space(&this.space, &ItemKey(this.agent_address.0.clone()));
                        (this, Step::Send(DbRequest::GetItem(request)))
                    },
                    Ok(false) => (this, Step::Done(Ok(false))),
                    Err(err) => (this, Step::Done(Err(err))),
                }
            },
            (AgentExistsPhase::ReadingAgent, DbReply::GetItem(read)) => match read {
                Ok(item) => (this, Step::Done(Ok(item.is_some()))),
                Err(e) => (this, Step::Done(Err(BbDhtError::from(e)))),
            },
            _ => vstd::pervasive::unreached(),
        }
    }
}

} // verus!
