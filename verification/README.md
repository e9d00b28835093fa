# sim1h

A network engine for a distributed hash table kept in DynamoDB: spaces, agents,
entry aspects and direct messages are items of one table, keyed by network,
space and address.

## Layout

- `src/` is the library, written in Verus with contracts on every function.
  - `dht::bbdht::dynamodb::schema` — the table's attribute names and the typed
    attribute values.
  - `dht::bbdht::dynamodb::api::item` — items as maps from attribute names to
    values, and the keys that place an item in a space.
  - `dht::bbdht::dynamodb::api::{table, space, agent, aspect}` — each operation
    builds the requests it needs and reads the replies. An operation that needs
    several round trips is a value with an `on_reply` method: it takes the reply
    to the last request and gives the next request or the result.
  - `dht::bbdht::dynamodb::request` — the requests and replies exchanged with
    the database, as plain values.
  - `dht::bbdht::error` — the errors, and how database failures map onto them.
  - `ghost_actor` — how the engine handles each kind of request.
- `app/` sends the library's requests to DynamoDB through a retrying rusoto
  client, runs the multi-step operations, and holds the program's `main`.
- `tests/` exercises the library, the store operations against an in-memory
  table service.
