//! The values that the conductor exchanges with the network.
use vstd::prelude::*;

verus! {

/// One published aspect of an entry.
#[derive(Debug, PartialEq, Eq, Clone)]
pub struct EntryAspectData {
    pub aspect_address: String,
    pub type_hint: String,
    pub aspect: Vec<u8>,
    pub publish_ts: u64,
}

/// An entry aspect as plain values.
pub struct EntryAspectDataView {
    pub aspect_address: Seq<char>,
    pub type_hint: Seq<char>,
    pub aspect: Seq<u8>,
    pub publish_ts: u64,
}

impl View for EntryAspectData {
    type V = EntryAspectDataView;

    open spec fn view(&self) -> EntryAspectDataView {
        EntryAspectDataView {
            aspect_address: self.aspect_address@,
            type_hint: self.type_hint@,
            aspect: self.aspect@,
            publish_ts: self.publish_ts,
        }
    }
}

/// A direct message from one agent to another.
#[derive(Debug, PartialEq, Eq, Clone)]
pub struct DirectMessageData {
    pub space_address: String,
    pub request_id: String,
    pub to_agent_id: String,
    pub from_agent_id: String,
    pub content: Vec<u8>,
}

/// A direct message as plain values.
pub struct DirectMessageDataView {
    pub space_address: Seq<char>,
    pub request_id: Seq<char>,
    pub to_agent_id: Seq<char>,
    pub from_agent_id: Seq<char>,
    pub content: Seq<u8>,
}

impl View for DirectMessageData {
    type V = DirectMessageDataView;

    open spec fn view(&self) -> DirectMessageDataView {
        DirectMessageDataView {
            space_address: self.space_address@,
            request_id: self.request_id@,
            to_agent_id: self.to_agent_id@,
            from_agent_id: self.from_agent_id@,
            content: self.content@,
        }
    }
}

/// A copy of `bytes`.
pub fn copy_bytes(bytes: &Vec<u8>) -> (r: Vec<u8>)
    ensures
        r@ == bytes@,
{
    let mut copy: Vec<u8> = Vec::new();
    let mut i: usize = 0;
    while i < bytes.len()
        invariant
            i <= bytes@.len(),
            copy@ == bytes@.subrange(0, i as int),
        decreases bytes@.len() - i,
    {
        copy.push(bytes[i]);
        i = i + 1;
    }
    assert(copy@ =~= bytes@);
    copy
}

impl EntryAspectData {
    /// A copy of this aspect.
    pub fn copy(&self) -> (r: EntryAspectData)
        ensures
            r@ == self@,
    {
        EntryAspectData {
            aspect_address: self.aspect_address.clone(),
            type_hint: self.type_hint.clone(),
            aspect: copy_bytes(&self.aspect),
            publish_ts: self.publish_ts,
        }
    }
}

} // verus!
