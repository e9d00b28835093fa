//! Deleting tables.
use crate::dht::bbdht::dynamodb::api::table::create::describes;
use crate::dht::bbdht::dynamodb::api::table::exist::{existence, table_exists, table_exists_reply};
use crate::dht::bbdht::dynamodb::request::{DbReply, DbRequest, DeleteTableInput, Step};
use crate::dht::bbdht::dynamodb::schema::TableName;
use crate::dht::bbdht::error::{error_of, BbDhtError, BbDhtResult, DbError};
use vstd::prelude::*;

verus! {

/// The request that deletes the table `table_name`.
pub fn delete_table(table_name: &str) -> (r: DeleteTableInput)
    ensures
        r.table_name@ == table_name@,
{
    DeleteTableInput { table_name: table_name.to_owned() }
}

/// What the reply to a deletion says: done, or the matching DHT error.
pub open spec fn deletion(reply: Result<(), DbError>) -> BbDhtResult<()> {
    match reply {
        Ok(_) => Ok(()),
        Err(e) => Err(error_of(e)),
    }
}

/// Where deleting a table stands.
pub enum DeleteTablePhase {
    /// Deleting the table.
    Deleting,
    /// Waiting for the table to be gone; what the deletion answered.
    Waiting(BbDhtResult<()>),
    /// Finished.
    Finished,
}

/// Deleting a table and waiting until it is gone.
pub struct DeletingTable {
    pub table_name: TableName,
    pub phase: DeleteTablePhase,
}

/// Deletes the table `table_name`, then describes it until it does not exist,
/// whatever the deletion answered, and gives what the deletion answered.
pub fn delete_table_and_wait(table_name: &TableName) -> (r: (DeletingTable, DbRequest))
    ensures
        r.0.table_name@ == table_name@,
        r.0.phase is Deleting,
        r.1 matches DbRequest::DeleteTable(d) && d.table_name@ == table_name@,
{
    let deleting = DeletingTable { table_name: table_name.copy(), phase: DeleteTablePhase::Deleting };
    let request = DbRequest::DeleteTable(delete_table(table_name.as_string().as_str()));
    (deleting, request)
}

impl DeletingTable {
    /// Whether `reply` answers the request this operation waits for.
    pub open spec fn awaits(&self, reply: DbReply) -> bool {
        match self.phase {
            DeleteTablePhase::Deleting => reply is DeleteTable,
            DeleteTablePhase::Waiting(_) => reply is DescribeTable,
            DeleteTablePhase::Finished => false,
        }
    }

    /// The next step after a reply.
    pub fn on_reply(self, reply: DbReply) -> (r: (DeletingTable, Step<BbDhtResult<()>>))
        requires
            self.awaits(reply),
        ensures
            r.0.table_name@ == self.table_name@,
            match self.phase {
                DeleteTablePhase::Deleting => r.0.phase == DeleteTablePhase::Waiting(deletion(reply->DeleteTable_0))
                    && r.1 is Send && describes(r.1->Send_0, self.table_name@),
                DeleteTablePhase::Waiting(o) => if existence(reply->DescribeTable_0) == Ok::<bool, BbDhtError>(false) {
                    r.0.phase is Finished && r.1 == Step::<BbDhtResult<()>>::Done(o)
                } else {
                    r.0.phase == DeleteTablePhase::Waiting(o) && r.1 is Send && describes(r.1->Send_0, self.table_name@)
                },
                DeleteTablePhase::Finished => false,
            },
    {
        let mut this = self;
        let mut phase = DeleteTablePhase::Finished;
        std::mem::swap(&mut phase, &mut this.phase);
        match (phase, reply) {
            (DeleteTablePhase::Deleting, DbReply::DeleteTable(deleted)) => {
                let outcome = match deleted {
                    Ok(_) => Ok(()),
                    Err(e) => Err(BbDhtError::from(e)),
                };
                this.phase = DeleteTablePhase::Waiting(outcome);
                let request = DbRequest::DescribeTable(table_exists(&this.table_name));
                (this, Step::Send(request))
            },
            (DeleteTablePhase::Waiting(outcome), DbReply::DescribeTable(described)) => {
                let gone = match table_exists_reply(described) {
                    Ok(exists) => !exists,
                    Err(_) => false,
                };
                if gone {
                    (this, Step::Done(outcome))
                } else {
                    this.phase = DeleteTablePhase::Waiting(outcome);
                    let request = DbRequest::DescribeTable(table_exists(&this.table_name));
                    (this, Step::Send(request))
                }
            },
            _ => vstd::pervasive::unreached(),
        }
    }
}

} // verus!
