//! Entry aspects: the parts of an entry that are published, each under its own address.
pub mod fixture;

use vstd::prelude::*;
use vstd::std_specs::convert::FromSpecImpl;

verus! {

/// The address of an entry aspect.
#[derive(Debug, PartialEq, Eq, Clone, Default)]
pub struct AspectAddress(pub String);

impl View for AspectAddress {
    type V = Seq<char>;

    open spec fn view(&self) -> Seq<char> {
        self.0@
    }
}

impl AspectAddress {
    /// The address as text.
    pub fn as_string(&self) -> (r: &String)
        ensures
            r@ == self@,
    {
        &self.0
    }

    /// A copy of this address.
    pub fn copy(&self) -> (r: AspectAddress)
        ensures
            r@ == self@,
    {
        AspectAddress(self.0.clone())
    }
}

/// The address of the entry that aspects belong to.
#[derive(Debug, PartialEq, Eq, Clone, Default)]
pub struct EntryAddress(pub String);

impl View for EntryAddress {
    type V = Seq<char>;

    open spec fn view(&self) -> Seq<char> {
        self.0@
    }
}

impl EntryAddress {
    /// The address as text.
    pub fn as_string(&self) -> (r: &String)
        ensures
            r@ == self@,
    {
        &self.0
    }

    /// A copy of this address.
    pub fn copy(&self) -> (r: EntryAddress)
        ensures
            r@ == self@,
    {
        EntryAddress(self.0.clone())
    }
}

impl From<String> for AspectAddress {
    fn from(string: String) -> (r: AspectAddress) {
        AspectAddress(string)
    }
}

impl FromSpecImpl<String> for AspectAddress {
    open spec fn obeys_from_spec() -> bool {
        true
    }

    open spec fn from_spec(string: String) -> AspectAddress {
        AspectAddress(string)
    }
}

impl<'a> From<&'a String> for AspectAddress {
    fn from(string: &'a String) -> (r: AspectAddress) {
        AspectAddress(string.clone())
    }
}

impl<'a> FromSpecImpl<&'a String> for AspectAddress {
    open spec fn obeys_from_spec() -> bool {
        true
    }

    open spec fn from_spec(string: &'a String) -> AspectAddress {
        AspectAddress(*string)
    }
}

impl From<AspectAddress> for String {
    fn from(aspect_address: AspectAddress) -> (r: String) {
        aspect_address.0
    }
}

impl FromSpecImpl<AspectAddress> for String {
    open spec fn obeys_from_spec() -> bool {
        true
    }

    open spec fn from_spec(aspect_address: AspectAddress) -> String {
        aspect_address.0
    }
}

impl From<EntryAddress> for String {
    fn from(entry_address: EntryAddress) -> (r: String) {
        entry_address.0
    }
}

impl FromSpecImpl<EntryAddress> for String {
    open spec fn obeys_from_spec() -> bool {
        true
    }

    open spec fn from_spec(entry_address: EntryAddress) -> String {
        entry_address.0
    }
}

impl From<String> for EntryAddress {
    fn from(string: String) -> (r: EntryAddress) {
        EntryAddress(string)
    }
}

impl FromSpecImpl<String> for EntryAddress {
    open spec fn obeys_from_spec() -> bool {
        true
    }

    open spec fn from_spec(string: String) -> EntryAddress {
        EntryAddress(string)
    }
}

} // verus!
