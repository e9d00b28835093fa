//! Spaces: the part of the network that an application's agents share.
pub mod fixture;

use crate::dht::bbdht::dynamodb::client::connection::Connection;
use crate::network::NetworkId;
use vstd::prelude::*;

verus! {

/// The hash that names a space.
pub type SpaceHash = String;

/// What a space is: where it is stored, and the network and hash that name it.
#[derive(Debug, Clone, Default)]
pub struct Space {
    connection: Connection,
    network_id: NetworkId,
    space_hash: SpaceHash,
}

/// A space as plain values.
pub struct SpaceView {
    pub table_name: Seq<char>,
    pub network_id: Seq<char>,
    pub space_hash: Seq<char>,
}

impl View for Space {
    type V = SpaceView;

    closed spec fn view(&self) -> SpaceView {
        SpaceView {
            table_name: self.connection@,
            network_id: self.network_id@,
            space_hash: self.space_hash@,
        }
    }
}

impl Space {
    /// The space named by `network_id` and `space_hash`, stored through `connection`.
    pub fn new(connection: &Connection, network_id: &NetworkId, space_hash: &SpaceHash) -> (r: Space)
        ensures
            r@.table_name == connection@,
            r@.network_id == network_id@,
            r@.space_hash == space_hash@,
    {
        Space {
            connection: Connection::new(connection.table_name()),
            network_id: NetworkId(network_id.0.clone()),
            space_hash: space_hash.clone(),
        }
    }

    /// A copy of this space.
    pub fn copy(&self) -> (r: Space)
        ensures
            r@ == self@,
    {
        Space::new(&self.connection, &self.network_id, &self.space_hash)
    }

    /// Where the space is stored.
    pub fn connection(&self) -> (r: &Connection)
        ensures
            r@ == self@.table_name,
    {
        &self.connection
    }

    /// The network the space belongs to.
    pub fn network_id(&self) -> (r: &NetworkId)
        ensures
            r@ == self@.network_id,
    {
        &self.network_id
    }

    /// The hash that names the space.
    pub fn space_hash(&self) -> (r: &SpaceHash)
        ensures
            r@ == self@.space_hash,
    {
        &self.space_hash
    }
}

} // verus!
