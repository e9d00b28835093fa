//! How the network engine answers the conductor's requests.
use vstd::prelude::*;

verus! {

/// The prefix of the ids of the requests that the engine makes.
pub const REQUEST_ID_PREFIX: &'static str = "sim";

/// The kinds of request that the conductor sends to the network.
#[derive(Debug, Clone, Copy, PartialEq, Eq)]
pub enum ClientRequest {
    Bootstrap,
    JoinSpace,
    LeaveSpace,
    SendDirectMessage,
    PublishEntry,
    HoldEntry,
    QueryEntry,
    FetchEntry,
}

/// The workflows that answer requests.
#[derive(Debug, Clone, Copy, PartialEq, Eq)]
pub enum Workflow {
    Bootstrap,
    JoinSpace,
    LeaveSpace,
    SendDirectMessage,
    PublishEntry,
    HoldEntry,
}

/// What the engine does with a request.
#[derive(Debug, Clone, Copy, PartialEq, Eq)]
pub enum Handling {
    /// Run the workflow and answer the request with its result.
    Respond(Workflow),
    /// Trace the request and leave it unanswered.
    TraceOnly,
}

/// How the engine handles a request: bootstrap, joining and leaving a space,
/// sending a direct message, publishing and holding an entry are answered with
/// the result of their workflow; querying and fetching an entry are only traced.
/// Either way the handling counts as work done.
pub fn handle_msg_from_client(request: ClientRequest) -> (r: (Handling, bool))
    ensures
        r.1,
        r.0 == match request {
            ClientRequest::Bootstrap => Handling::Respond(Workflow::Bootstrap),
            ClientRequest::JoinSpace => Handling::Respond(Workflow::JoinSpace),
            ClientRequest::LeaveSpace => Handling::Respond(Workflow::LeaveSpace),
            ClientRequest::SendDirectMessage => Handling::Respond(Workflow::SendDirectMessage),
            ClientRequest::PublishEntry => Handling::Respond(Workflow::PublishEntry),
            ClientRequest::HoldEntry => Handling::Respond(Workflow::HoldEntry),
            ClientRequest::QueryEntry => Handling::TraceOnly,
            ClientRequest::FetchEntry => Handling::TraceOnly,
        },
{
    let handling = match request {
        ClientRequest::Bootstrap => Handling::Respond(Workflow::Bootstrap),
        ClientRequest::JoinSpace => Handling::Respond(Workflow::JoinSpace),
        ClientRequest::LeaveSpace => Handling::Respond(Workflow::LeaveSpace),
        ClientRequest::SendDirectMessage => Handling::Respond(Workflow::SendDirectMessage),
        ClientRequest::PublishEntry => Handling::Respond(Workflow::PublishEntry),
        ClientRequest::HoldEntry => Handling::Respond(Workflow::HoldEntry),
        ClientRequest::QueryEntry => Handling::TraceOnly,
        ClientRequest::FetchEntry => Handling::TraceOnly,
    };
    (handling, true)
}

/// The log context of a request: `ClientToLib3h::` and the request's kind.
pub fn log_context(request: ClientRequest) -> (r: &'static str)
    ensures
        r@ == match request {
            ClientRequest::Bootstrap => "ClientToLib3h::Bootstrap"@,
            ClientRequest::JoinSpace => "ClientToLib3h::JoinSpace"@,
            ClientRequest::LeaveSpace => "ClientToLib3h::LeaveSpace"@,
            ClientRequest::SendDirectMessage => "ClientToLib3h::SendDirectMessage"@,
            ClientRequest::PublishEntry => "ClientToLib3h::PublishEntry"@,
            ClientRequest::HoldEntry => "ClientToLib3h::HoldEntry"@,
            ClientRequest::QueryEntry => "ClientToLib3h::QueryEntry"@,
            ClientRequest::FetchEntry => "ClientToLib3h::FetchEntry"@,
        },
{
    match request {
        ClientRequest::Bootstrap => "ClientToLib3h::Bootstrap",
        ClientRequest::JoinSpace => "ClientToLib3h::JoinSpace",
        ClientRequest::LeaveSpace => "ClientToLib3h::LeaveSpace",
        ClientRequest::SendDirectMessage => "ClientToLib3h::SendDirectMessage",
        ClientRequest::PublishEntry => "ClientToLib3h::PublishEntry",
        ClientRequest::HoldEntry => "ClientToLib3h::HoldEntry",
        ClientRequest::QueryEntry => "ClientToLib3h::QueryEntry",
        ClientRequest::FetchEntry => "ClientToLib3h::FetchEntry",
    }
}

/// Whether a round of processing did work: whether any handled request did.
pub fn work_was_done(handled: &Vec<bool>) -> (r: bool)
    ensures
        r == exists|i: int| 0 <= i < handled@.len() && handled@[i],
{
    let mut done = false;
    let mut i: usize = 0;
    while i < handled.len()
        invariant
            i <= handled@.len(),
            done == exists|j: int| 0 <= j < i && handled@[j],
        decreases handled@.len() - i,
    {
        done = done || handled[i];
        i = i + 1;
    }
    done
}

} // verus!
