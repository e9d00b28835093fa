//! Entries: the content that agents publish, named by its address.
pub mod fixture;

use vstd::prelude::*;
use vstd::std_specs::convert::FromSpecImpl;

verus! {

/// The address of an entry.
#[derive(Debug, PartialEq, Eq, Clone, Default)]
pub struct EntryAddress(pub String);

impl View for EntryAddress {
    type V = Seq<char>;

    open spec fn view(&self) -> Seq<char> {
        self.0@
    }
}

impl EntryAddress {
    /// The address as text.
    pub fn as_string(&self) -> (r: &String)
        ensures
            r@ == self@,
    {
        &self.0
    }

    /// A copy of this address.
    pub fn copy(&self) -> (r: EntryAddress)
        ensures
            r@ == self@,
    {
        EntryAddress(self.0.clone())
    }
}

impl From<EntryAddress> for String {
    fn from(entry_address: EntryAddress) -> (r: String) {
        entry_address.0
    }
}

impl FromSpecImpl<EntryAddress> for String {
    open spec fn obeys_from_spec() -> bool {
        true
    }

    open spec fn from_spec(entry_address: EntryAddress) -> String {
        entry_address.0
    }
}

impl From<String> for EntryAddress {
    fn from(string: String) -> (r: EntryAddress) {
        EntryAddress(string)
    }
}

impl FromSpecImpl<String> for EntryAddress {
    open spec fn obeys_from_spec() -> bool {
        true
    }

    open spec fn from_spec(string: String) -> EntryAddress {
        EntryAddress(string)
    }
}

} // verus!
