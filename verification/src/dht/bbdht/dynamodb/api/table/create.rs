//! Creating tables, and making sure that a table exists.
use crate::dht::bbdht::dynamodb::api::table::exist::{existence, table_exists, table_exists_reply};
use crate::dht::bbdht::dynamodb::request::{CreateTableInput, DbReply, DbRequest, Step, TableDescription};
use crate::dht::bbdht::dynamodb::schema::cas::{attribute_definitions_cas, key_schema_cas, ITEM_KEY, PARTITION_KEY};
use crate::dht::bbdht::dynamodb::schema::{
    attribute_definitions_view, copy_attribute_definitions, copy_key_schema, key_schema_view,
    AttributeDefinition, KeySchemaElement, TableName,
};
use crate::dht::bbdht::error::{error_of, BbDhtError, BbDhtResult};
use vstd::prelude::*;

verus! {

/// The request that creates the table `table_name` with the given key schema
/// and attribute definitions, and one unit of read and of write capacity (see
/// `create_table_and_wait`, which also waits for the table to exist).
pub fn create_table(
    table_name: &TableName,
    key_schema: &Vec<KeySchemaElement>,
    attribute_definitions: &Vec<AttributeDefinition>,
) -> (r: CreateTableInput)
    ensures
        r.table_name@ == table_name@,
        key_schema_view(r.key_schema@) == key_schema_view(key_schema@),
        attribute_definitions_view(r.attribute_definitions@) == attribute_definitions_view(
            attribute_definitions@,
        ),
        r.read_capacity_units == 1,
        r.write_capacity_units == 1,
{
    CreateTableInput {
        table_name: table_name.as_string().clone(),
        key_schema: copy_key_schema(key_schema),
        attribute_definitions: copy_attribute_definitions(attribute_definitions),
        read_capacity_units: 1,
        write_capacity_units: 1,
    }
}

/// Where creating a table stands.
pub enum CreateTablePhase {
    /// Creating the table.
    Creating,
    /// Waiting for the table to exist; what its creation described.
    Waiting(Option<TableDescription>),
    /// Finished.
    Finished,
}

/// Creating a table and waiting until it exists.
pub struct CreatingTable {
    pub table_name: TableName,
    pub phase: CreateTablePhase,
}

/// Creates the table `table_name` with the given key schema and attribute
/// definitions (see `create_table`), then describes it until it exists, and
/// gives what the creation described. A failed creation is the error, and
/// there is no waiting.
pub fn create_table_and_wait(
    table_name: &TableName,
    key_schema: &Vec<KeySchemaElement>,
    attribute_definitions: &Vec<AttributeDefinition>,
) -> (r: (CreatingTable, DbRequest))
    ensures
        r.0.table_name@ == table_name@,
        r.0.phase is Creating,
        r.1 matches DbRequest::CreateTable(c) && c.table_name@ == table_name@
            && key_schema_view(c.key_schema@) == key_schema_view(key_schema@)
            && attribute_definitions_view(c.attribute_definitions@) == attribute_definitions_view(attribute_definitions@)
            && c.read_capacity_units == 1 && c.write_capacity_units == 1,
{
    let creating = CreatingTable { table_name: table_name.copy(), phase: CreateTablePhase::Creating };
    let request = DbRequest::CreateTable(create_table(table_name, key_schema, attribute_definitions));
    (creating, request)
}

impl CreatingTable {
    /// Whether `reply` answers the request this operation waits for.
    pub open spec fn awaits(&self, reply: DbReply) -> bool {
        match self.phase {
            CreateTablePhase::Creating => reply is CreateTable,
            CreateTablePhase::Waiting(_) => reply is DescribeTable,
            CreateTablePhase::Finished => false,
        }
    }

    /// The next step after a reply.
    pub fn on_reply(self, reply: DbReply) -> (r: (CreatingTable, Step<BbDhtResult<Option<TableDescription>>>))
        requires
            self.awaits(reply),
        ensures
            r.0.table_name@ == self.table_name@,
            match self.phase {
                CreateTablePhase::Creating => match reply->CreateTable_0 {
                    Ok(d) => r.0.phase == CreateTablePhase::Waiting(d) && r.1 is Send && describes(r.1->Send_0, self.table_name@),
                    Err(e) => r.0.phase is Finished && r.1 == Step::<BbDhtResult<Option<TableDescription>>>::Done(Err(error_of(e))),
                },
                CreateTablePhase::Waiting(d) => if existence(reply->DescribeTable_0) == Ok::<bool, BbDhtError>(true) {
                    r.0.phase is Finished && r.1 == Step::<BbDhtResult<Option<TableDescription>>>::Done(Ok(d))
                } else {
                    r.0.phase == CreateTablePhase::Waiting(d) && r.1 is Send && describes(r.1->Send_0, self.table_name@)
                },
                CreateTablePhase::Finished => false,
            },
    {
        let mut this = self;
        let mut phase = CreateTablePhase::Finished;
        std::mem::swap(&mut phase, &mut this.phase);
        match (phase, reply) {
            (CreateTablePhase::Creating, DbReply::CreateTable(created)) => match created {
                Ok(description) => {
                    this.phase = CreateTablePhase::Waiting(description);
                    let request = DbRequest::DescribeTable(table_exists(&this.table_name));
                    (this, Step::Send(request))
                },
                Err(e) => (this, Step::Done(Err(BbDhtError::from(e)))),
            },
            (CreateTablePhase::Waiting(description), DbReply::DescribeTable(described)) => {
                let exists = match table_exists_reply(described) {
                    Ok(exists) => exists,
                    Err(_) => false,
                };
                if exists {
                    (this, Step::Done(Ok(description)))
                } else {
                    this.phase = CreateTablePhase::Waiting(description);
                    let request = DbRequest::DescribeTable(table_exists(&this.table_name));
                    (this, Step::Send(request))
                }
            },
            _ => vstd::pervasive::unreached(),
        }
    }
}

/// Where making sure of a table stands.
pub enum EnsureTablePhase {
    /// Asking whether the table exists.
    Checking,
    /// Creating the table.
    Creating,
    /// Waiting for the created table to be active; what its creation described.
    Waiting(Option<TableDescription>),
    /// Finished.
    Finished,
}

/// Making sure that a table exists, creating it if it does not.
pub struct EnsureTable {
    pub table_name: TableName,
    pub key_schema: Vec<KeySchemaElement>,
    pub attribute_definitions: Vec<AttributeDefinition>,
    pub phase: EnsureTablePhase,
}

/// `r` is the request that describes the table `table_name`.
pub open spec fn describes(r: DbRequest, table_name: Seq<char>) -> bool {
    r matches DbRequest::DescribeTable(d) && d.table_name@ == table_name
}

/// `r` is the request that creates the table of `e` as `e` describes it.
pub open spec fn creates(r: DbRequest, e: EnsureTable) -> bool {
    &&& r matches DbRequest::CreateTable(c)
    &&& c.table_name@ == e.table_name@
    &&& key_schema_view(c.key_schema@) == key_schema_view(e.key_schema@)
    &&& attribute_definitions_view(c.attribute_definitions@) == attribute_definitions_view(e.attribute_definitions@)
    &&& c.read_capacity_units == 1
    &&& c.write_capacity_units == 1
}

/// A DHT error on which asking again may succeed.
pub open spec fn is_retried_check_error(e: BbDhtError) -> bool {
    e is InternalServerError || e is Unknown || e is ResourceNotFound
}

/// Makes sure that the table `table_name` exists. It asks whether the table
/// exists; if it does, that is all (`None`). If it does not, it creates it, waits
/// until it exists, and gives what the creation described. A creation that
/// fails because the table is being created already ends with `None`; any other
/// failed creation starts over. A check that fails with an internal server
/// error, an unknown error or a missing resource starts over; any other failed
/// check is the error.
pub fn ensure_table(
    table_name: &TableName,
    key_schema: &Vec<KeySchemaElement>,
    attribute_definitions: &Vec<AttributeDefinition>,
) -> (r: (EnsureTable, DbRequest))
    ensures
        r.0.table_name@ == table_name@,
        key_schema_view(r.0.key_schema@) == key_schema_view(key_schema@),
        attribute_definitions_view(r.0.attribute_definitions@) == attribute_definitions_view(
            attribute_definitions@,
        ),
        r.0.phase is Checking,
        describes(r.1, table_name@),
{
    let ensure = EnsureTable {
        table_name: table_name.copy(),
        key_schema: copy_key_schema(key_schema),
        attribute_definitions: copy_attribute_definitions(attribute_definitions),
        phase: EnsureTablePhase::Checking,
    };
    let request = DbRequest::DescribeTable(table_exists(table_name));
    (ensure, request)
}

/// Makes sure that the table `table_name` exists with the key schema of the
/// content addressable store.
pub fn ensure_cas_table(table_name: &TableName) -> (r: (EnsureTable, DbRequest))
    ensures
        r.0.table_name@ == table_name@,
        r.0.key_schema@.len() == 1,
        r.0.key_schema@[0]@ == (PARTITION_KEY@, "HASH"@),
        r.0.attribute_definitions@.len() == 1,
        r.0.attribute_definitions@[0]@ == (ITEM_KEY@, "S"@),
        r.0.phase is Checking,
        describes(r.1, table_name@),
{
    let key_schema = key_schema_cas();
    let attribute_definitions = attribute_definitions_cas();
    let r = ensure_table(table_name, &key_schema, &attribute_definitions);
    proof {
        assert(key_schema_view(key_schema@)[0] == key_schema@[0]@);
        assert(attribute_definitions_view(attribute_definitions@)[0] == attribute_definitions@[0]@);
        assert(key_schema_view(r.0.key_schema@).len() == r.0.key_schema@.len());
        assert(attribute_definitions_view(r.0.attribute_definitions@).len() == r.0.attribute_definitions@.len());
        assert(key_schema_view(r.0.key_schema@)[0] == r.0.key_schema@[0]@);
        assert(attribute_definitions_view(r.0.attribute_definitions@)[0] == r.0.attribute_definitions@[0]@);
    }
    r
}

impl EnsureTable {
    /// The request that creates the table.
    fn create_request(&self) -> (r: DbRequest)
        ensures
            creates(r, *self),
    {
        DbRequest::CreateTable(create_table(&self.table_name, &self.key_schema, &self.attribute_definitions))
    }

    /// The request that describes the table.
    fn describe_request(&self) -> (r: DbRequest)
        ensures
            describes(r, self.table_name@),
    {
        DbRequest::DescribeTable(table_exists(&self.table_name))
    }

    /// Whether `reply` answers the request this operation waits for.
    pub open spec fn awaits(&self, reply: DbReply) -> bool {
        match self.phase {
            EnsureTablePhase::Checking => reply is DescribeTable,
            EnsureTablePhase::Creating => reply is CreateTable,
            EnsureTablePhase::Waiting(_) => reply is DescribeTable,
            EnsureTablePhase::Finished => false,
        }
    }

    /// The next step after a reply.
    pub fn on_reply(self, reply: DbReply) -> (r: (EnsureTable, Step<BbDhtResult<Option<TableDescription>>>))
        requires
            self.awaits(reply),
        ensures
            r.0.table_name@ == self.table_name@,
            key_schema_view(r.0.key_schema@) == key_schema_view(self.key_schema@),
            attribute_definitions_view(r.0.attribute_definitions@) == attribute_definitions_view(
                self.attribute_definitions@,
            ),
            match self.phase {
                EnsureTablePhase::Checking => match existence(reply->DescribeTable_0) {
                    Ok(false) => r.0.phase is Creating && r.1 is Send && creates(r.1->Send_0, r.0),
                    Ok(true) => r.0.phase is Finished && r.1 == Step::<BbDhtResult<Option<TableDescription>>>::Done(Ok(None)),
                    Err(e) => if is_retried_check_error(e) {
                        r.0.phase is Checking && r.1 is Send && describes(r.1->Send_0, self.table_name@)
                    } else {
                        r.0.phase is Finished && r.1 == Step::<BbDhtResult<Option<TableDescription>>>::Done(Err(e))
                    },
                },
                EnsureTablePhase::Creating => match reply->CreateTable_0 {
                    Ok(d) => r.0.phase == EnsureTablePhase::Waiting(d) && r.1 is Send && describes(r.1->Send_0, self.table_name@),
                    Err(e) => if error_of(e) is ResourceInUse {
                        r.0.phase is Finished && r.1 == Step::<BbDhtResult<Option<TableDescription>>>::Done(Ok(None))
                    } else {
                        r.0.phase is Checking && r.1 is Send && describes(r.1->Send_0, self.table_name@)
                    },
                },
                EnsureTablePhase::Waiting(d) => if existence(reply->DescribeTable_0) == Ok::<bool, BbDhtError>(true) {
                    r.0.phase is Finished && r.1 == Step::<BbDhtResult<Option<TableDescription>>>::Done(Ok(d))
                } else {
                    r.0.phase == EnsureTablePhase::Waiting(d) && r.1 is Send && describes(r.1->Send_0, self.table_name@)
                },
                EnsureTablePhase::Finished => false,
            },
    {
        let mut this = self;
        let mut phase = EnsureTablePhase::Finished;
        std::mem::swap(&mut phase, &mut this.phase);
        match phase {
            EnsureTablePhase::Checking => {
                let description = match reply {
                    DbReply::DescribeTable(d) => d,
                    _ => vstd::pervasive::unreached(),
                };
                match table_exists_reply(description) {
                    Ok(false) => {
                        this.phase = EnsureTablePhase::Creating;
                        let request = this.create_request();
                        (this, Step::Send(request))
                    },
                    Ok(true) => (this, Step::Done(Ok(None))),
                    Err(BbDhtError::InternalServerError(m)) => {
                        this.phase = EnsureTablePhase::Checking;
                        let request = this.describe_request();
                        (this, Step::Send(request))
                    },
                    Err(BbDhtError::Unknown(m)) => {
                        this.phase = EnsureTablePhase::Checking;
                        let request = this.describe_request();
                        (this, Step::Send(request))
                    },
                    Err(BbDhtError::ResourceNotFound(m)) => {
                        this.phase = EnsureTablePhase::Checking;
                        let request = this.describe_request();
                        (this, Step::Send(request))
                    },
                    Err(err) => (this, Step::Done(Err(err))),
                }
            },
            EnsureTablePhase::Creating => {
                let created = match reply {
                    DbReply::CreateTable(c) => c,
                    _ => vstd::pervasive::unreached(),
                };
                match created {
                    Ok(description) => {
                        this.phase = EnsureTablePhase::Waiting(description);
                        let request = this.describe_request();
                        (this, Step::Send(request))
                    },
                    Err(e) => match BbDhtError::from(e) {
                        BbDhtError::ResourceInUse(_) => (this, Step::Done(Ok(None))),
                        _ => {
                            this.phase = EnsureTablePhase::Checking;
                            let request = this.describe_request();
                            (this, Step::Send(request))
                        },
                    },
                }
            },
            EnsureTablePhase::Waiting(description) => {
                let described = match reply {
                    DbReply::DescribeTable(d) => d,
                    _ => vstd::pervasive::unreached(),
                };
                let exists = match table_exists_reply(described) {
                    Ok(does_exist) => does_exist,
                    Err(_) => false,
                };
                if exists {
                    (this, Step::Done(Ok(description)))
                } else {
                    this.phase = EnsureTablePhase::Waiting(description);
                    let request = this.describe_request();
                    (this, Step::Send(request))
                }
            },
            EnsureTablePhase::Finished => vstd::pervasive::unreached(),
        }
    }
}

} // verus!
