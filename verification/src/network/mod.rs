//! Identifiers of the network and of its requests.
pub mod fixture;
use vstd::prelude::*;
use vstd::std_specs::convert::FromSpecImpl;

verus! {

/// The id of a request, as the conductor names it.
#[derive(Debug, PartialEq, Eq, Clone)]
pub struct RequestId(pub String);

/// The id of the network that a space belongs to.
#[derive(Debug, PartialEq, Eq, Clone, Default)]
pub struct NetworkId(pub String);

impl View for RequestId {
    type V = Seq<char>;

    open spec fn view(&self) -> Seq<char> {
        self.0@
    }
}

impl View for NetworkId {
    type V = Seq<char>;

    open spec fn view(&self) -> Seq<char> {
        self.0@
    }
}

impl RequestId {
    /// A copy of this request id.
    pub fn copy(&self) -> (r: RequestId)
        ensures
            r == *self,
    {
        RequestId(self.0.clone())
    }

    /// The request id as text.
    pub fn as_string(&self) -> (r: &String)
        ensures
            r@ == self@,
    {
        &self.0
    }
}

impl NetworkId {
    /// The network id as text.
    pub fn as_string(&self) -> (r: &String)
        ensures
            r@ == self@,
    {
        &self.0
    }
}

impl From<NetworkId> for String {
    fn from(network_id: NetworkId) -> (r: String) {
        network_id.0
    }
}

impl FromSpecImpl<NetworkId> for String {
    open spec fn obeys_from_spec() -> bool {
        true
    }

    open spec fn from_spec(v: NetworkId) -> String {
        v.0
    }
}

impl From<String> for NetworkId {
    fn from(string: String) -> (r: NetworkId) {
        NetworkId(string)
    }
}

impl FromSpecImpl<String> for NetworkId {
    open spec fn obeys_from_spec() -> bool {
        true
    }

    open spec fn from_spec(v: String) -> NetworkId {
        NetworkId(v)
    }
}

impl<'a> From<&'a NetworkId> for String {
    fn from(network_id: &'a NetworkId) -> (r: String) {
        network_id.0.clone()
    }
}

impl<'a> FromSpecImpl<&'a NetworkId> for String {
    open spec fn obeys_from_spec() -> bool {
        true
    }

    open spec fn from_spec(v: &'a NetworkId) -> String {
        v.0
    }
}

impl From<RequestId> for String {
    fn from(request_id: RequestId) -> (r: String) {
        request_id.0
    }
}

impl FromSpecImpl<RequestId> for String {
    open spec fn obeys_from_spec() -> bool {
        true
    }

    open spec fn from_spec(v: RequestId) -> String {
        v.0
    }
}

impl<'a> From<&'a RequestId> for String {
    fn from(request_id: &'a RequestId) -> (r: String) {
        request_id.0.clone()
    }
}

impl<'a> FromSpecImpl<&'a RequestId> for String {
    open spec fn obeys_from_spec() -> bool {
        true
    }

    open spec fn from_spec(v: &'a RequestId) -> String {
        v.0
    }
}

impl From<String> for RequestId {
    fn from(string: String) -> (r: RequestId) {
        RequestId(string)
    }
}

impl FromSpecImpl<String> for RequestId {
    open spec fn obeys_from_spec() -> bool {
        true
    }

    open spec fn from_spec(v: String) -> RequestId {
        RequestId(v)
    }
}

impl<'a> From<&'a String> for RequestId {
    fn from(string: &'a String) -> (r: RequestId) {
        RequestId(string.clone())
    }
}

impl<'a> FromSpecImpl<&'a String> for RequestId {
    open spec fn obeys_from_spec() -> bool {
        true
    }

    open spec fn from_spec(v: &'a String) -> RequestId {
        RequestId(*v)
    }
}

} // verus!
