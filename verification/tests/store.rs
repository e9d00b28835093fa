use sim1h::agent::fixture::agent_address_fresh;
use sim1h::agent::fixture::message_content_fresh;
use sim1h::aspect::fixture::aspect_address_fresh;
use sim1h::aspect::fixture::publish_ts_fresh;
use sim1h::aspect::fixture::type_hint_fresh;
use sim1h::aspect::AspectAddress;
use sim1h::aspect::EntryAddress;
use sim1h::data_types::DirectMessageData;
use sim1h::data_types::EntryAspectData;
use sim1h::dht::bbdht::dynamodb::api::agent::inbox::append_request_id_to_inbox;
use sim1h::dht::bbdht::dynamodb::api::agent::inbox::check_inbox;
use sim1h::dht::bbdht::dynamodb::api::agent::inbox::get_inbox_request_ids;
use sim1h::dht::bbdht::dynamodb::api::agent::inbox::inbox_request_ids;
use sim1h::dht::bbdht::dynamodb::api::agent::inbox::put_inbox_message;
use sim1h::dht::bbdht::dynamodb::api::agent::inbox::request_ids_to_messages;
use sim1h::dht::bbdht::dynamodb::api::agent::inbox::RequestIdsToMessages;
use sim1h::dht::bbdht::dynamodb::api::agent::inbox::send_to_agent_inbox;
use sim1h::dht::bbdht::dynamodb::api::agent::inbox::CheckInbox;
use sim1h::dht::bbdht::dynamodb::api::agent::inbox::Folder;
use sim1h::dht::bbdht::dynamodb::api::agent::inbox::FromAddress;
use sim1h::dht::bbdht::dynamodb::api::agent::inbox::SendToAgentInbox;
use sim1h::dht::bbdht::dynamodb::api::agent::inbox::ToAddress;
use sim1h::dht::bbdht::dynamodb::api::agent::read::agent_exists;
use sim1h::dht::bbdht::dynamodb::api::agent::read::AgentExists;
use sim1h::dht::bbdht::dynamodb::api::agent::write::touch_agent;
use sim1h::dht::bbdht::dynamodb::api::aspect::read::get_aspect;
use sim1h::dht::bbdht::dynamodb::api::aspect::read::get_aspect_reply;
use sim1h::dht::bbdht::dynamodb::api::aspect::read::get_entry_aspects;
use sim1h::dht::bbdht::dynamodb::api::aspect::read::scan_aspects;
use sim1h::dht::bbdht::dynamodb::api::aspect::read::scan_aspects_reply;
use sim1h::dht::bbdht::dynamodb::api::aspect::read::GetEntryAspects;
use sim1h::dht::bbdht::dynamodb::api::aspect::write::append_aspect_list_to_entry;
use sim1h::dht::bbdht::dynamodb::api::aspect::write::aspect_list_to_attribute;
use sim1h::dht::bbdht::dynamodb::api::aspect::write::put_aspect;
use sim1h::dht::bbdht::dynamodb::api::aspect::write::AppendAspectList;
use sim1h::dht::bbdht::dynamodb::api::item::partition_key;
use sim1h::dht::bbdht::dynamodb::api::item::read::get_item_from_space;
use sim1h::dht::bbdht::dynamodb::api::item::write::ensure_content;
use sim1h::dht::bbdht::dynamodb::api::item::write::write_until_done;
use sim1h::dht::bbdht::dynamodb::api::item::write::Write;
use sim1h::dht::bbdht::dynamodb::api::item::write::WriteUntilDone;
use sim1h::dht::bbdht::dynamodb::api::item::Item;
use sim1h::dht::bbdht::dynamodb::api::item::ItemKey;
use sim1h::dht::bbdht::dynamodb::api::space::create::ensure_space;
use sim1h::dht::bbdht::dynamodb::api::space::exist::space_exists;
use sim1h::dht::bbdht::dynamodb::api::table::create::create_table_and_wait;
use sim1h::dht::bbdht::dynamodb::api::table::create::CreatingTable;
use sim1h::dht::bbdht::dynamodb::api::table::create::ensure_cas_table;
use sim1h::dht::bbdht::dynamodb::api::table::create::ensure_table;
use sim1h::dht::bbdht::dynamodb::api::table::create::EnsureTable;
use sim1h::dht::bbdht::dynamodb::api::table::delete::delete_table_and_wait;
use sim1h::dht::bbdht::dynamodb::api::table::delete::DeletingTable;
use sim1h::dht::bbdht::dynamodb::api::table::describe::describe_table;
use sim1h::dht::bbdht::dynamodb::api::table::describe::described_table;
use sim1h::dht::bbdht::dynamodb::api::table::exist::table_exists;
use sim1h::dht::bbdht::dynamodb::api::table::exist::table_exists_reply;
use sim1h::dht::bbdht::dynamodb::api::table::exist::until_table_exists;
use sim1h::dht::bbdht::dynamodb::api::table::exist::UntilTable;
use sim1h::dht::bbdht::dynamodb::api::table::fixture::table_name_fresh;
use sim1h::dht::bbdht::dynamodb::request::DbReply;
use sim1h::dht::bbdht::dynamodb::request::DbRequest;
use sim1h::dht::bbdht::dynamodb::request::DeleteTableInput;
use sim1h::dht::bbdht::dynamodb::request::PutItemInput;
use sim1h::dht::bbdht::dynamodb::request::ScanInput;
use sim1h::dht::bbdht::dynamodb::request::ScanOutput;
use sim1h::dht::bbdht::dynamodb::request::Step;
use sim1h::dht::bbdht::dynamodb::request::TableDescription;
use sim1h::dht::bbdht::dynamodb::request::UpdateItemInput;
use sim1h::dht::bbdht::dynamodb::schema::cas::attribute_definitions_cas;
use sim1h::dht::bbdht::dynamodb::schema::cas::key_schema_cas;
use sim1h::dht::bbdht::dynamodb::schema::cas::ALL_MESSAGES_FOLDER;
use sim1h::dht::bbdht::dynamodb::schema::cas::ASPECT_LIST_KEY;
use sim1h::dht::bbdht::dynamodb::schema::cas::CONTENT_KEY;
use sim1h::dht::bbdht::dynamodb::schema::cas::PARTITION_KEY;
use sim1h::dht::bbdht::dynamodb::schema::cas::SEEN_MESSAGES_FOLDER;
use sim1h::dht::bbdht::dynamodb::schema::fixture::attribute_definitions_a;
use sim1h::dht::bbdht::dynamodb::schema::fixture::key_schema_a;
use sim1h::dht::bbdht::dynamodb::schema::string_attribute_value;
use sim1h::dht::bbdht::dynamodb::schema::AttributeDefinition;
use sim1h::dht::bbdht::dynamodb::schema::AttributeValue;
use sim1h::dht::bbdht::dynamodb::schema::KeySchemaElement;
use sim1h::dht::bbdht::dynamodb::schema::TableName;
use sim1h::dht::bbdht::error::db_result;
use sim1h::dht::bbdht::error::BbDhtError;
use sim1h::dht::bbdht::error::BbDhtResult;
use sim1h::dht::bbdht::error::DbError;
use sim1h::dht::bbdht::error::ServiceError;
use sim1h::entry::fixture::entry_address_fresh;
use sim1h::log::trace;
use sim1h::network::fixture::request_id_fresh;
use sim1h::network::RequestId;
use sim1h::space::fixture::space_fresh;
use sim1h::space::Space;

// ---------------------------------------------------------------------------
// An in-memory table service that answers the library's requests the way the
// real service documents them: tables by name, items by their hash key, string
// set ADD as a union and SET as an overwrite.
// ---------------------------------------------------------------------------

fn clone_value(v: &AttributeValue) -> AttributeValue {
    AttributeValue {
        b: v.b.clone(),
        bool: v.bool,
        bs: v.bs.clone(),
        l: v.l.as_ref().map(|l| l.iter().map(clone_value).collect()),
        m: v.m.as_ref().map(clone_item),
        n: v.n.clone(),
        ns: v.ns.clone(),
        null: v.null,
        s: v.s.clone(),
        ss: v.ss.clone(),
    }
}

fn clone_item(item: &Item) -> Item {
    let mut copy = Item::new();
    for (name, value) in item.entries() {
        copy.insert(name.clone(), clone_value(value));
    }
    copy
}

fn attribute<'a>(item: &'a Item, name: &str) -> Option<&'a AttributeValue> {
    item.get(&name.to_string())
}

struct Table {
    name: String,
    key_schema: Vec<KeySchemaElement>,
    attribute_definitions: Vec<AttributeDefinition>,
    items: Vec<Item>,
}

impl Table {
    fn hash_key_name(&self) -> String {
        self.key_schema[0].attribute_name.clone()
    }

    fn key_of(&self, item: &Item) -> Result<String, DbError> {
        match attribute(item, &self.hash_key_name()).and_then(|v| v.s.clone()) {
            Some(k) => Ok(k),
            None => Err(DbError::Validation(
                "The provided key element does not match the schema".to_string(),
            )),
        }
    }

    fn position(&self, key: &str) -> Option<usize> {
        let name = self.hash_key_name();
        self.items
            .iter()
            .position(|i| attribute(i, &name).and_then(|v| v.s.clone()).as_deref() == Some(key))
    }

    fn description(&self) -> TableDescription {
        TableDescription {
            table_name: Some(self.name.clone()),
            table_status: Some("ACTIVE".to_string()),
            key_schema: Some(self.key_schema.clone()),
            attribute_definitions: Some(self.attribute_definitions.clone()),
        }
    }
}

struct FakeDb {
    tables: Vec<Table>,
    requests: usize,
}

fn not_found() -> DbError {
    DbError::Service(ServiceError::ResourceNotFound(
        "Cannot do operations on a non-existent table".to_string(),
    ))
}

impl FakeDb {
    fn new() -> FakeDb {
        FakeDb { tables: Vec::new(), requests: 0 }
    }

    fn table(&self, name: &str) -> Result<&Table, DbError> {
        self.tables.iter().find(|t| t.name == name).ok_or_else(not_found)
    }

    fn table_mut(&mut self, name: &str) -> Result<&mut Table, DbError> {
        self.tables.iter_mut().find(|t| t.name == name).ok_or_else(not_found)
    }

    fn handle(&mut self, request: DbRequest) -> DbReply {
        self.requests += 1;
        match request {
            DbRequest::DescribeTable(d) => {
                DbReply::DescribeTable(self.table(&d.table_name).map(|t| t.description()))
            }
            DbRequest::CreateTable(c) => DbReply::CreateTable(if self.table(&c.table_name).is_ok() {
                Err(DbError::Service(ServiceError::ResourceInUse(format!(
                    "Table already exists: {}",
                    c.table_name
                ))))
            } else {
                let table = Table {
                    name: c.table_name.clone(),
                    key_schema: c.key_schema.clone(),
                    attribute_definitions: c.attribute_definitions.clone(),
                    items: Vec::new(),
                };
                let description = table.description();
                self.tables.push(table);
                Ok(Some(description))
            }),
            DbRequest::GetItem(g) => DbReply::GetItem(self.table(&g.table_name).and_then(|t| {
                let key = t.key_of(&g.key)?;
                Ok(t.position(&key).map(|i| clone_item(&t.items[i])))
            })),
            DbRequest::PutItem(p) => DbReply::PutItem(self.put(p)),
            DbRequest::UpdateItem(u) => DbReply::UpdateItem(self.update(u)),
            DbRequest::DeleteTable(d) => DbReply::DeleteTable(self.delete(&d)),
        }
    }

    fn put(&mut self, p: PutItemInput) -> Result<(), DbError> {
        let table = self.table_mut(&p.table_name)?;
        let key = table.key_of(&p.item)?;
        match table.position(&key) {
            Some(i) => table.items[i] = p.item,
            None => table.items.push(p.item),
        }
        Ok(())
    }

    fn update(&mut self, u: UpdateItemInput) -> Result<(), DbError> {
        let table = self.table_mut(&u.table_name)?;
        let key = table.key_of(&u.key)?;
        let index = match table.position(&key) {
            Some(i) => i,
            None => {
                table.items.push(clone_item(&u.key));
                table.items.len() - 1
            }
        };
        let names = u.expression_attribute_names.unwrap_or_default();
        let values = u.expression_attribute_values.unwrap_or_else(Item::new);
        let expression = u.update_expression.unwrap_or_default();
        let tokens: Vec<&str> = expression.split_whitespace().collect();
        let name_of = |alias: &str| -> Result<String, DbError> {
            let alias = alias.trim_end_matches(',');
            names
                .iter()
                .find(|(a, _)| a == alias)
                .map(|(_, n)| n.clone())
                .ok_or_else(|| DbError::Validation(format!("unknown name {}", alias)))
        };
        let value_of = |alias: &str| -> Result<AttributeValue, DbError> {
            let alias = alias.trim_end_matches(',');
            attribute(&values, alias)
                .map(clone_value)
                .ok_or_else(|| DbError::Validation(format!("unknown value {}", alias)))
        };
        let item = &mut table.items[index];
        let mut mode = "";
        let mut i = 0;
        while i < tokens.len() {
            match tokens[i] {
                "ADD" | "SET" => {
                    mode = tokens[i];
                    i += 1;
                }
                _ if mode == "ADD" => {
                    let name = name_of(tokens[i])?;
                    let value = value_of(tokens[i + 1])?;
                    let merged = match (attribute(item, &name), value.ss.clone()) {
                        (None, _) => value,
                        (Some(old), Some(added)) if old.ss.is_some() => {
                            let mut set = old.ss.clone().unwrap();
                            for a in added {
                                if !set.contains(&a) {
                                    set.push(a);
                                }
                            }
                            let mut v = clone_value(old);
                            v.ss = Some(set);
                            v
                        }
                        _ => {
                            return Err(DbError::Validation(
                                "An operand in the update expression has an incorrect data type"
                                    .to_string(),
                            ))
                        }
                    };
                    item.insert(name, merged);
                    i += 2;
                }
                _ if mode == "SET" => {
                    let name = name_of(tokens[i])?;
                    assert_eq!("=", tokens[i + 1]);
                    let value = value_of(tokens[i + 2])?;
                    item.insert(name, value);
                    i += 3;
                }
                other => {
                    return Err(DbError::Validation(format!("syntax error at {}", other)));
                }
            }
        }
        Ok(())
    }

    fn scan(&self, s: &ScanInput) -> Result<ScanOutput, DbError> {
        let table = self.table(&s.table_name)?;
        let fields: Option<Vec<String>> = s
            .projection_expression
            .as_ref()
            .map(|e| e.split(',').map(|f| f.trim().to_string()).collect());
        let items = table
            .items
            .iter()
            .map(|item| match &fields {
                None => clone_item(item),
                Some(fields) => {
                    let mut projected = Item::new();
                    for f in fields {
                        if let Some(v) = attribute(item, f) {
                            projected.insert(f.clone(), clone_value(v));
                        }
                    }
                    projected
                }
            })
            .collect();
        Ok(ScanOutput { items: Some(items), last_evaluated_key: None })
    }

    fn delete(&mut self, d: &DeleteTableInput) -> Result<(), DbError> {
        self.table(&d.table_name)?;
        self.tables.retain(|t| t.name != d.table_name);
        Ok(())
    }
}

// ---------------------------------------------------------------------------
// Running the library's operations against the service.
// ---------------------------------------------------------------------------

trait Operation: Sized {
    type Output;
    fn advance(self, reply: DbReply) -> (Self, Step<Self::Output>);
}

impl Operation for EnsureTable {
    type Output = BbDhtResult<Option<TableDescription>>;
    fn advance(self, reply: DbReply) -> (Self, Step<Self::Output>) {
        self.on_reply(reply)
    }
}

impl Operation for CreatingTable {
    type Output = BbDhtResult<Option<TableDescription>>;
    fn advance(self, reply: DbReply) -> (Self, Step<Self::Output>) {
        self.on_reply(reply)
    }
}

impl Operation for DeletingTable {
    type Output = BbDhtResult<()>;
    fn advance(self, reply: DbReply) -> (Self, Step<Self::Output>) {
        self.on_reply(reply)
    }
}

impl Operation for WriteUntilDone {
    type Output = BbDhtResult<()>;
    fn advance(self, reply: DbReply) -> (Self, Step<Self::Output>) {
        self.on_reply(reply)
    }
}

impl Operation for UntilTable {
    type Output = ();
    fn advance(self, reply: DbReply) -> (Self, Step<()>) {
        self.on_reply(reply)
    }
}

impl Operation for AgentExists {
    type Output = BbDhtResult<bool>;
    fn advance(self, reply: DbReply) -> (Self, Step<Self::Output>) {
        self.on_reply(reply)
    }
}

impl Operation for SendToAgentInbox {
    type Output = BbDhtResult<()>;
    fn advance(self, reply: DbReply) -> (Self, Step<Self::Output>) {
        self.on_reply(reply)
    }
}

impl Operation for CheckInbox {
    type Output = BbDhtResult<Vec<(DirectMessageData, bool)>>;
    fn advance(self, reply: DbReply) -> (Self, Step<Self::Output>) {
        self.on_reply(reply)
    }
}

impl Operation for RequestIdsToMessages {
    type Output = BbDhtResult<Vec<(DirectMessageData, bool)>>;
    fn advance(self, reply: DbReply) -> (Self, Step<Self::Output>) {
        self.on_reply(reply)
    }
}

impl Operation for GetEntryAspects {
    type Output = BbDhtResult<Vec<EntryAspectData>>;
    fn advance(self, reply: DbReply) -> (Self, Step<Self::Output>) {
        self.on_reply(reply)
    }
}

impl Operation for AppendAspectList {
    type Output = BbDhtResult<()>;
    fn advance(self, reply: DbReply) -> (Self, Step<Self::Output>) {
        self.on_reply(reply)
    }
}

fn run<O: Operation>(db: &mut FakeDb, start: (O, DbRequest)) -> O::Output {
    let (mut operation, mut request) = start;
    loop {
        let reply = db.handle(request);
        let (next, step) = operation.advance(reply);
        match step {
            Step::Send(r) => {
                operation = next;
                request = r;
            }
            Step::Done(output) => return output,
        }
    }
}

fn run_from<O: Operation>(db: &mut FakeDb, start: (O, Step<O::Output>)) -> O::Output {
    match start {
        (operation, Step::Send(request)) => run(db, (operation, request)),
        (_, Step::Done(output)) => output,
    }
}

fn table_is_there(db: &mut FakeDb, table_name: &TableName) -> BbDhtResult<bool> {
    match db.handle(DbRequest::DescribeTable(table_exists(table_name))) {
        DbReply::DescribeTable(reply) => table_exists_reply(reply),
        _ => unreachable!(),
    }
}

fn create_and_wait(
    db: &mut FakeDb,
    table_name: &TableName,
    key_schema: &Vec<KeySchemaElement>,
    attribute_definitions: &Vec<AttributeDefinition>,
) -> BbDhtResult<()> {
    run(db, create_table_and_wait(table_name, key_schema, attribute_definitions)).map(|_| ())
}

fn delete_and_wait(db: &mut FakeDb, table_name: &TableName) -> BbDhtResult<()> {
    run(db, delete_table_and_wait(table_name))
}

fn describe(db: &mut FakeDb, table_name: &TableName) -> BbDhtResult<TableDescription> {
    match db.handle(DbRequest::DescribeTable(describe_table(table_name.as_string()))) {
        DbReply::DescribeTable(reply) => db_result(reply),
        _ => unreachable!(),
    }
}

fn put(db: &mut FakeDb, request: PutItemInput) -> BbDhtResult<()> {
    match db.handle(DbRequest::PutItem(request)) {
        DbReply::PutItem(reply) => db_result(reply),
        _ => unreachable!(),
    }
}

fn update(db: &mut FakeDb, request: UpdateItemInput) -> BbDhtResult<()> {
    match db.handle(DbRequest::UpdateItem(request)) {
        DbReply::UpdateItem(reply) => db_result(reply),
        _ => unreachable!(),
    }
}

fn get_item(db: &mut FakeDb, space: &Space, key: &ItemKey) -> BbDhtResult<Option<Item>> {
    match db.handle(DbRequest::GetItem(get_item_from_space(space, key))) {
        DbReply::GetItem(reply) => db_result(reply),
        _ => unreachable!(),
    }
}

fn space_table(space: &Space) -> TableName {
    space.connection().table_name().copy()
}

fn entry_aspect_data_fresh() -> EntryAspectData {
    let aspect_address = aspect_address_fresh();
    EntryAspectData {
        aspect: aspect_address.clone().into_bytes(),
        aspect_address,
        type_hint: type_hint_fresh(),
        publish_ts: publish_ts_fresh(),
    }
}

fn aspect_list_fresh() -> Vec<EntryAspectData> {
    (0..10).map(|_| entry_aspect_data_fresh()).collect()
}

fn unordered_vec_compare<T: PartialEq>(a: Vec<T>, b: Vec<T>) -> bool {
    a.len() == b.len() && a.iter().all(|x| b.contains(x)) && b.iter().all(|x| a.contains(x))
}

fn folders() -> Vec<String> {
    vec![ALL_MESSAGES_FOLDER.to_string(), SEEN_MESSAGES_FOLDER.to_string()]
}

// ---------------------------------------------------------------------------
// Tables
// ---------------------------------------------------------------------------

#[test]
fn create_table_test() {
    let log_context = "create_table_test";

    trace(&log_context, "fixtures");
    let mut db = FakeDb::new();
    let table_name = table_name_fresh();
    let key_schema = key_schema_a();
    let attribute_definitions = attribute_definitions_a();

    // not exists
    assert!(!table_is_there(&mut db, &table_name).expect("could not check that table exists"));

    // create
    assert!(create_and_wait(&mut db, &table_name, &key_schema, &attribute_definitions).is_ok());

    // exists
    assert!(table_is_there(&mut db, &table_name).expect("could not check that table exists"));
}

#[test]
fn ensure_table_test() {
    let log_context = "ensure_table_test";

    trace(&log_context, "fixtures");
    let mut db = FakeDb::new();
    let table_name = table_name_fresh();
    let key_schema = key_schema_a();
    let attribute_definitions = attribute_definitions_a();

    // not exists
    assert!(!table_is_there(&mut db, &table_name).unwrap());

    // ensure
    assert!(run(&mut db, ensure_table(&table_name, &key_schema, &attribute_definitions)).is_ok());

    // exists
    assert!(table_is_there(&mut db, &table_name).unwrap());

    // ensure again
    assert!(run(&mut db, ensure_table(&table_name, &key_schema, &attribute_definitions))
        .expect("could not check table")
        .is_none());

    // exists
    assert!(table_is_there(&mut db, &table_name).unwrap());
}

#[test]
fn ensure_cas_table_test() {
    let log_context = "ensure_cas_table_test";

    trace(&log_context, "fixtures");
    let mut db = FakeDb::new();
    let table_name = table_name_fresh();

    // ensure cas
    assert!(run(&mut db, ensure_cas_table(&table_name)).is_ok());

    // check cas schema
    match describe(&mut db, &table_name) {
        Ok(table_description) => {
            assert_eq!(Some(key_schema_cas()), table_description.key_schema);
            assert_eq!(
                Some(attribute_definitions_cas()),
                table_description.attribute_definitions
            );
        }
        Err(err) => {
            panic!("{:?}", err);
        }
    }

    // thrash
    for _ in 0..100 {
        assert!(run(&mut db, ensure_cas_table(&table_name)).is_ok());
    }
}

#[test]
fn delete_table_test() {
    let log_context = "delete_table_test";

    trace(&log_context, "fixtures");
    let mut db = FakeDb::new();
    let table_name = table_name_fresh();
    let key_schema = key_schema_a();
    let attribute_definitions = attribute_definitions_a();

    trace(&log_context, "check table not exists at init");
    assert!(!table_is_there(&mut db, &table_name).expect("could not check that table exists"));

    trace(&log_context, "create the table");
    assert!(create_and_wait(&mut db, &table_name, &key_schema, &attribute_definitions).is_ok());

    trace(&log_context, "check table exists");
    assert!(table_is_there(&mut db, &table_name).expect("could not check that table exists"));

    trace(&log_context, "delete table");
    assert!(delete_and_wait(&mut db, &table_name).is_ok());

    trace(&log_context, "table deleted");
    assert!(!table_is_there(&mut db, &table_name).expect("could not check that the table exists"));
}

#[test]
fn describe_table_test() {
    let log_context = "describe_table_test";

    trace(&log_context, "fixtures");
    let mut db = FakeDb::new();
    let table_name = table_name_fresh();
    let key_schema = key_schema_a();
    let attribute_definitions = attribute_definitions_a();

    trace(&log_context, "check table not exists at init");
    assert!(!table_is_there(&mut db, &table_name).expect("could not check that table exists"));

    trace(&log_context, "create the table");
    assert!(create_and_wait(&mut db, &table_name, &key_schema, &attribute_definitions).is_ok());

    trace(&log_context, "check the table was created");
    assert!(table_is_there(&mut db, &table_name).expect("could not check that table exists"));
}

#[test]
fn table_exists_test() {
    let log_context = "table_exists_test";

    trace(&log_context, "fixtures");
    let mut db = FakeDb::new();
    let table_name = table_name_fresh();
    let key_schema = key_schema_a();
    let attribute_definitions = attribute_definitions_a();

    // not exists
    assert!(!table_is_there(&mut db, &table_name).expect("could not check if table exists"));

    // ensure table
    match run(&mut db, ensure_table(&table_name, &key_schema, &attribute_definitions)) {
        Ok(_) => {}
        Err(err) => panic!("{:?}", err),
    };

    // exists
    assert!(table_is_there(&mut db, &table_name).expect("could not check if table exists"));

    // delete
    assert!(delete_and_wait(&mut db, &table_name).is_ok());

    // not exists
    assert!(!table_is_there(&mut db, &table_name).expect("could not check if table exists"));
}

#[test]
fn ensure_table_reports_what_creation_described() {
    let mut db = FakeDb::new();
    let table_name = table_name_fresh();
    let described = run(&mut db, ensure_cas_table(&table_name))
        .unwrap()
        .expect("a new table is described");
    assert_eq!(Some(table_name.as_string().clone()), described.table_name);
    assert_eq!(Some(key_schema_cas()), described.key_schema);
}

#[test]
fn table_exists_reply_maps_failures() {
    assert_eq!(Ok(false), table_exists_reply(Err(not_found())));
    assert_eq!(
        Err(BbDhtError::Credentials("no key".to_string())),
        table_exists_reply(Err(DbError::Credentials("no key".to_string())))
    );
    let creating = TableDescription {
        table_name: Some("t".to_string()),
        table_status: Some("CREATING".to_string()),
        key_schema: None,
        attribute_definitions: None,
    };
    assert_eq!(Ok(false), table_exists_reply(Ok(creating)));
}

// ---------------------------------------------------------------------------
// Items and agents
// ---------------------------------------------------------------------------

#[test]
fn agent_exists_test() {
    let log_context = "agent_exists";

    trace(&log_context, "fixtures");
    let mut db = FakeDb::new();
    let space = space_fresh();
    let agent_id = agent_address_fresh();

    // agent not exists if space not exists
    match run(&mut db, agent_exists(&space, &agent_id)) {
        Ok(false) => {}
        Ok(true) => panic!("apparently agent exists before the space does"),
        Err(err) => panic!("{:?}", err),
    };

    // ensure cas
    assert!(run(&mut db, ensure_space(&space)).is_ok());

    // agent not exists if not join space
    match run(&mut db, agent_exists(&space, &agent_id)) {
        Ok(false) => {}
        Ok(true) => panic!("agent exists before join"),
        Err(err) => panic!("{:?}", err),
    };

    // join
    assert!(put(&mut db, touch_agent(&space, &agent_id)).is_ok());

    // agent exists now
    match run(&mut db, agent_exists(&space, &agent_id)) {
        Ok(false) => panic!("agent not exists after join"),
        Ok(true) => {}
        Err(err) => panic!("{:?}", err),
    }
}

#[test]
fn touch_agent_test() {
    let log_context = "touch_agent_test";

    trace(&log_context, "fixtures");
    let mut db = FakeDb::new();
    let space = space_fresh();
    let agent_id = agent_address_fresh();

    // ensure cas
    assert!(run(&mut db, ensure_space(&space)).is_ok());

    // touch agent
    assert!(run(&mut db, write_until_done(&space, Write::Agent(agent_id.clone()))).is_ok());
}

#[test]
fn get_item_from_space_test() {
    let log_context = "get_item_from_space_test";

    trace(&log_context, "fixtures");
    let mut db = FakeDb::new();
    let space = space_fresh();
    let address = entry_address_fresh();
    let content = message_content_fresh();
    let content = String::from_utf8(content).unwrap();

    // ensure cas
    assert!(run(&mut db, ensure_space(&space)).is_ok());

    // cas exists
    let space_table_name = space_table(&space);
    match db.handle(DbRequest::DescribeTable(space_exists(&space))) {
        DbReply::DescribeTable(reply) => assert_eq!(Ok(true), table_exists_reply(reply)),
        _ => unreachable!(),
    }
    assert!(table_is_there(&mut db, &space_table_name).unwrap());

    // ensure content
    assert!(put(&mut db, ensure_content(&space, &address, &content)).is_ok());

    // get content
    let item = get_item(&mut db, &space, &ItemKey::from(address.clone()))
        .unwrap()
        .expect("content was written");
    assert_eq!(
        Some(&string_attribute_value(&content)),
        item.get(&CONTENT_KEY.to_string())
    );
}

#[test]
fn ensure_content_test() {
    let log_context = "ensure_content_test";

    trace(&log_context, "fixtures");
    let mut db = FakeDb::new();
    let space = space_fresh();
    let table_name = space_table(&space);
    let address = entry_address_fresh();
    let content = "100".to_string();

    // ensure cas
    assert!(run(&mut db, ensure_cas_table(&table_name)).is_ok());

    // cas exists
    assert!(table_is_there(&mut db, &table_name).expect("could not check table exists"));

    // ensure content
    assert!(put(&mut db, ensure_content(&space, &address, &content)).is_ok());

    // thrash a bit
    for _ in 0..100 {
        assert!(put(&mut db, ensure_content(&space, &address, &content)).is_ok());
    }
    assert_eq!(1, db.table(table_name.as_string()).unwrap().items.len());
}

#[test]
fn writing_to_a_missing_table_fails() {
    let mut db = FakeDb::new();
    let space = space_fresh();
    assert_eq!(
        Err(BbDhtError::ResourceNotFound(
            "Cannot do operations on a non-existent table".to_string()
        )),
        put(&mut db, touch_agent(&space, &agent_address_fresh()))
    );
}

// ---------------------------------------------------------------------------
// Aspects
// ---------------------------------------------------------------------------

#[test]
fn put_aspect_test() {
    let log_context = "put_aspect_test";

    trace(&log_context, "fixtures");
    let mut db = FakeDb::new();
    let space = space_fresh();
    let entry_aspect = entry_aspect_data_fresh();

    // ensure space
    assert!(run(&mut db, ensure_space(&space)).is_ok());

    // space exists
    assert!(table_is_there(&mut db, &space_table(&space)).is_ok());

    // put aspect
    assert!(run(&mut db, write_until_done(&space, Write::Aspect(entry_aspect.clone()))).is_ok());
}

#[test]
fn append_aspects_to_entry_test() {
    let log_context = "append_aspects_to_entry_test";

    trace(&log_context, "fixtures");
    let mut db = FakeDb::new();
    let space = space_fresh();
    let entry_address = entry_address_fresh();
    let aspect_list = aspect_list_fresh();

    let expected_list = aspect_list_to_attribute(&space, &aspect_list);
    let expected_key = string_attribute_value(&partition_key(&space, &entry_address));

    // ensure space
    assert!(run(&mut db, ensure_space(&space)).is_ok());

    // space exists
    assert!(table_is_there(&mut db, &space_table(&space)).is_ok());

    // trash/idempotency loop
    for _ in 0..3 {
        // append aspects
        assert!(run(
            &mut db,
            append_aspect_list_to_entry(&space, &EntryAddress::from(entry_address.clone()), &aspect_list)
        )
        .is_ok());

        // get matches
        match get_item(&mut db, &space, &ItemKey::from(entry_address.clone())) {
            Ok(Some(item)) => {
                assert_eq!(Some(&expected_key), attribute(&item, PARTITION_KEY));
                assert_eq!(
                    expected_list.ss.iter().count(),
                    attribute(&item, ASPECT_LIST_KEY).unwrap().ss.iter().count(),
                );
                assert_eq!(
                    expected_list.ss.as_ref().unwrap().len(),
                    attribute(&item, ASPECT_LIST_KEY).unwrap().ss.as_ref().unwrap().len(),
                );
            }
            Ok(None) => {
                trace(&log_context, "get matches None");
                panic!("None");
            }
            Err(err) => {
                trace(&log_context, "get matches err");
                panic!("{:?}", err);
            }
        }
    }
}

#[test]
fn get_entry_aspects_test() {
    let log_context = "get_entry_aspects_test";

    trace(&log_context, "fixtures");
    let mut db = FakeDb::new();
    let space = space_fresh();
    let entry_address = entry_address_fresh();
    let aspect_list = aspect_list_fresh();

    // ensure cas
    assert!(run(&mut db, ensure_space(&space)).is_ok());

    // empty aspect list
    let entry = sim1h::entry::EntryAddress::from(entry_address.clone());
    match run(&mut db, get_entry_aspects(&space, &entry)) {
        Ok(aspects) => {
            let expected: Vec<EntryAspectData> = Vec::new();
            assert_eq!(expected, aspects);
        }
        Err(err) => panic!("found entry aspects before adding list {:?}", err),
    }

    // put aspect list
    assert!(run(
        &mut db,
        append_aspect_list_to_entry(&space, &EntryAddress::from(entry_address.clone()), &aspect_list)
    )
    .is_ok());

    // get aspect list
    match run(&mut db, get_entry_aspects(&space, &entry)) {
        Ok(aspects) => assert!(unordered_vec_compare(aspect_list, aspects)),
        Err(err) => panic!("no aspects found {:?}", err),
    }
}

#[test]
fn read_aspect_test() {
    let log_context = "read_aspect_test";

    trace(&log_context, "fixtures");
    let mut db = FakeDb::new();
    let space = space_fresh();
    let entry_aspect_data = entry_aspect_data_fresh();

    // ensure cas
    assert!(run(&mut db, ensure_space(&space)).is_ok());

    // put aspect
    assert!(put(&mut db, put_aspect(&space, &entry_aspect_data)).is_ok());

    // get aspect
    let address = AspectAddress::from(entry_aspect_data.aspect_address.clone());
    let reply = match db.handle(DbRequest::GetItem(get_aspect(&space, &address))) {
        DbReply::GetItem(reply) => reply,
        _ => unreachable!(),
    };
    match get_aspect_reply(reply) {
        Ok(Some(v)) => {
            println!("{:#?}", v);
            assert_eq!(v.aspect_address, entry_aspect_data.aspect_address);
            assert_eq!(v.aspect_address, entry_aspect_data.aspect_address);
            assert_eq!(v.type_hint, entry_aspect_data.type_hint);
            assert_eq!(v.aspect, entry_aspect_data.aspect);
            assert_eq!(v.publish_ts, entry_aspect_data.publish_ts);
        }
        Ok(None) => panic!("get_aspect None"),
        Err(err) => {
            trace(&log_context, "get_aspect Err");
            panic!("{:#?}", err);
        }
    }
}

#[test]
fn read_missing_aspect_is_none() {
    let mut db = FakeDb::new();
    let space = space_fresh();
    assert!(run(&mut db, ensure_space(&space)).is_ok());
    let address = AspectAddress::from(aspect_address_fresh());
    let reply = match db.handle(DbRequest::GetItem(get_aspect(&space, &address))) {
        DbReply::GetItem(reply) => reply,
        _ => unreachable!(),
    };
    assert_eq!(Ok(None), get_aspect_reply(reply));
}

#[test]
fn scan_aspects_test() {
    let log_context = "scan_aspects_test";

    trace(&log_context, "fixtures");
    let mut db = FakeDb::new();
    let space = space_fresh();
    let entry_address = entry_address_fresh();
    let aspect_list = aspect_list_fresh();
    let aspect_addresses: Vec<String> =
        aspect_list.iter().map(|a| a.aspect_address.clone()).collect();

    run(&mut db, ensure_space(&space)).unwrap();

    {
        let (items, _) = scan_aspects_reply(db.scan(&scan_aspects(&space, None)))
            .unwrap_or_else(|err| panic!("error while scanning: {:?}", err));
        assert!(items.len() == 0);
    }

    run(
        &mut db,
        append_aspect_list_to_entry(&space, &EntryAddress::from(entry_address.clone()), &aspect_list),
    )
    .unwrap();

    let (items, _) = scan_aspects_reply(db.scan(&scan_aspects(&space, None)))
        .unwrap_or_else(|err| panic!("error while scanning: {:?}", err));

    assert!(items.len() == 1);
    let found = items
        .iter()
        .find(|(k, _)| *k == entry_address)
        .map(|(_, v)| v.clone())
        .expect("the entry was scanned");
    assert!(unordered_vec_compare(found, aspect_addresses));
}

// ---------------------------------------------------------------------------
// Direct messages
// ---------------------------------------------------------------------------

#[test]
fn append_request_id_to_inbox_test() {
    let log_context = "append_request_id_to_inbox_test";

    trace(&log_context, "fixtures");
    let mut db = FakeDb::new();
    let space = space_fresh();
    let request_id = request_id_fresh();
    let to = agent_address_fresh();

    for folder in folders() {
        // ensure cas
        assert!(run(&mut db, ensure_space(&space)).is_ok());

        // append request_id
        assert!(update(
            &mut db,
            append_request_id_to_inbox(&space, &folder.into(), &request_id, &ToAddress::from(&to))
        )
        .is_ok());
    }
}

#[test]
fn put_inbox_message_test() {
    let log_context = "put_inbox_message_test";

    trace(&log_context, "fixtures");
    let mut db = FakeDb::new();
    let space = space_fresh();
    let request_id = request_id_fresh();
    let from = agent_address_fresh();
    let to = agent_address_fresh();
    let content = message_content_fresh();
    let is_response = false;

    // ensure cas
    assert!(run(&mut db, ensure_space(&space)).is_ok());

    // pub inbox message
    assert!(put(
        &mut db,
        put_inbox_message(&space, &request_id, &from.into(), &to.into(), &content, is_response)
    )
    .is_ok());
}

#[test]
fn send_to_agent_inbox_test() {
    let log_context = "send_to_agent_inbox_test";

    trace(&log_context, "fixtures");
    let mut db = FakeDb::new();
    let space = space_fresh();
    let request_id = request_id_fresh();
    let from = agent_address_fresh();
    let to = agent_address_fresh();
    let content = message_content_fresh();
    let is_response = false;

    // ensure cas
    assert!(run(&mut db, ensure_space(&space)).is_ok());

    // pub inbox message
    assert!(run(
        &mut db,
        send_to_agent_inbox(
            &space,
            &request_id,
            &FromAddress::from(&from),
            &ToAddress::from(&to),
            &content,
            is_response,
        )
    )
    .is_ok());
}

#[test]
fn get_inbox_request_ids_test() {
    let log_context = "get_inbox_request_ids_test";

    trace(&log_context, "fixtures");
    let mut db = FakeDb::new();
    let space = space_fresh();
    let request_id = request_id_fresh();
    let from = agent_address_fresh();
    let to = agent_address_fresh();
    let content = message_content_fresh();
    let is_response = false;

    // ensure cas
    assert!(run(&mut db, ensure_space(&space)).is_ok());

    // pub inbox message
    assert!(run(
        &mut db,
        send_to_agent_inbox(
            &space,
            &request_id,
            &FromAddress::from(&from),
            &ToAddress::from(&to),
            &content,
            is_response,
        )
    )
    .is_ok());

    // get inbox message
    let reply = match db.handle(DbRequest::GetItem(get_inbox_request_ids(&space, &to.into()))) {
        DbReply::GetItem(reply) => reply,
        _ => unreachable!(),
    };
    match inbox_request_ids(&Folder::from(ALL_MESSAGES_FOLDER.to_string()), reply) {
        Ok(request_ids) => assert_eq!(vec![request_id.clone()], request_ids),
        Err(err) => panic!("incorrect request id {:?}", err),
    };
}

#[test]
fn check_inbox_test() {
    let log_context = "check_inbox_test";

    trace(&log_context, "fixtures");
    let mut db = FakeDb::new();
    let space = space_fresh();
    let request_id = request_id_fresh();
    let from = agent_address_fresh();
    let to = agent_address_fresh();
    let content = message_content_fresh();
    let is_response = false;

    let direct_message_data = DirectMessageData {
        content: content.clone(),
        from_agent_id: from.clone().into(),
        to_agent_id: to.clone().into(),
        request_id: request_id.clone().into(),
        space_address: space.space_hash().clone(),
    };

    // ensure cas
    assert!(run(&mut db, ensure_space(&space)).is_ok());

    // pub inbox message
    assert!(run(
        &mut db,
        send_to_agent_inbox(
            &space,
            &request_id,
            &FromAddress::from(&from),
            &ToAddress::from(&to),
            &content,
            is_response,
        )
    )
    .is_ok());

    // check inbox
    match run(&mut db, check_inbox(&space, &to.clone().into())) {
        Ok(messages) => assert_eq!(vec![(direct_message_data.clone(), is_response)], messages),
        Err(err) => panic!("incorrect request id {:?}", err),
    };

    // check again, should be empty
    match run(&mut db, check_inbox(&space, &to.clone().into())) {
        Ok(request_ids) => {
            let v: Vec<(DirectMessageData, bool)> = Vec::new();
            assert_eq!(v, request_ids);
        }
        Err(err) => panic!("incorrect request id {:?}", err),
    };
}

#[test]
fn check_inbox_gives_messages_in_inbox_order_once() {
    let mut db = FakeDb::new();
    let space = space_fresh();
    let from = agent_address_fresh();
    let to = agent_address_fresh();
    assert!(run(&mut db, ensure_space(&space)).is_ok());

    let ids: Vec<RequestId> = (0..3).map(|_| request_id_fresh()).collect();
    for (n, id) in ids.iter().enumerate() {
        let content = vec![n as u8];
        assert!(run(
            &mut db,
            send_to_agent_inbox(&space, id, &FromAddress::from(&from), &ToAddress::from(&to), &content, n == 1)
        )
        .is_ok());
    }

    let messages = run(&mut db, check_inbox(&space, &ToAddress::from(&to))).unwrap();
    assert_eq!(3, messages.len());
    for (n, (message, response)) in messages.iter().enumerate() {
        assert_eq!(ids[n].0, message.request_id);
        assert_eq!(vec![n as u8], message.content);
        assert_eq!(n == 1, *response);
    }

    // one more message: only it is new
    let later = request_id_fresh();
    assert!(run(
        &mut db,
        send_to_agent_inbox(&space, &later, &FromAddress::from(&from), &ToAddress::from(&to), &vec![9], false)
    )
    .is_ok());
    let messages = run(&mut db, check_inbox(&space, &ToAddress::from(&to))).unwrap();
    assert_eq!(1, messages.len());
    assert_eq!(later.0, messages[0].0.request_id);
}

#[test]
fn check_inbox_of_a_missing_message_fails_and_marks_it_seen() {
    let mut db = FakeDb::new();
    let space = space_fresh();
    let to = agent_address_fresh();
    assert!(run(&mut db, ensure_space(&space)).is_ok());

    // a request id in the inbox with no message stored under it
    let orphan = request_id_fresh();
    let all = Folder::from(ALL_MESSAGES_FOLDER.to_string());
    assert!(update(&mut db, append_request_id_to_inbox(&space, &all, &orphan, &ToAddress::from(&to))).is_ok());

    match run(&mut db, check_inbox(&space, &ToAddress::from(&to))) {
        Err(BbDhtError::MissingData(m)) => {
            assert_eq!(format!("missing message for request id: RequestId(\"{}\")", orphan.0), m)
        }
        other => panic!("{:?}", other),
    }

    // filed as seen all the same
    assert_eq!(Ok(Vec::new()), run(&mut db, check_inbox(&space, &ToAddress::from(&to))));
}

#[test]
fn request_ids_to_messages_fetches_each_in_order() {
    let mut db = FakeDb::new();
    let space = space_fresh();
    let from = agent_address_fresh();
    let to = agent_address_fresh();
    assert!(run(&mut db, ensure_space(&space)).is_ok());

    // nothing asked, nothing sent
    let requests = db.requests;
    assert_eq!(Ok(Vec::new()), run_from(&mut db, request_ids_to_messages(&space, &Vec::new())));
    assert_eq!(requests, db.requests);

    let ids: Vec<RequestId> = (0..2).map(|_| request_id_fresh()).collect();
    for id in ids.iter() {
        assert!(put(
            &mut db,
            put_inbox_message(&space, id, &FromAddress::from(&from), &ToAddress::from(&to), &vec![1], false)
        )
        .is_ok());
    }
    let messages = run_from(&mut db, request_ids_to_messages(&space, &ids)).unwrap();
    assert_eq!(2, messages.len());
    assert_eq!(ids[0].0, messages[0].0.request_id);
    assert_eq!(ids[1].0, messages[1].0.request_id);

    // a request id with no message stops the fetch
    let mut with_missing = ids.clone();
    with_missing.insert(1, request_id_fresh());
    match run_from(&mut db, request_ids_to_messages(&space, &with_missing)) {
        Err(BbDhtError::MissingData(m)) => {
            assert_eq!(format!("missing message for request id: RequestId(\"{}\")", with_missing[1].0), m)
        }
        other => panic!("{:?}", other),
    }
}

#[test]
fn creating_an_existing_table_fails_without_waiting() {
    let mut db = FakeDb::new();
    let table_name = table_name_fresh();
    let described = run(&mut db, create_table_and_wait(&table_name, &key_schema_a(), &attribute_definitions_a()))
        .unwrap()
        .expect("creation describes the table");
    assert_eq!(Some(table_name.as_string().clone()), described.table_name);
    let requests = db.requests;
    match run(&mut db, create_table_and_wait(&table_name, &key_schema_a(), &attribute_definitions_a())) {
        Err(BbDhtError::ResourceInUse(_)) => {}
        other => panic!("{:?}", other),
    }
    assert_eq!(requests + 1, db.requests);
    // waiting for an existing table ends at once
    run(&mut db, until_table_exists(&table_name));
}

#[test]
fn deleting_a_missing_table_reports_it_and_waits_no_longer() {
    let mut db = FakeDb::new();
    let table_name = table_name_fresh();
    assert_eq!(
        Err(BbDhtError::ResourceNotFound(
            "Cannot do operations on a non-existent table".to_string()
        )),
        delete_and_wait(&mut db, &table_name)
    );
    assert_eq!(2, db.requests);
}

#[test]
fn a_description_reply_without_a_table_is_a_parse_error() {
    assert_eq!(
        Err(DbError::ParseError("no table description".to_string())),
        described_table(None).map(|d| d.table_name)
    );
    let d = TableDescription {
        table_name: Some("t".to_string()),
        table_status: None,
        key_schema: None,
        attribute_definitions: None,
    };
    assert_eq!(Ok(Some("t".to_string())), described_table(Some(d)).map(|d| d.table_name));
}
