use vstd::prelude::*;
use crate::json::plain_text;
use crate::text::str_eq;

verus! {

broadcast use vstd::string::group_string_axioms;

/// Why a request is answered with an error.
#[derive(Clone, Copy, Debug, PartialEq, Eq, Structural)]
pub enum Fault {
    NotPost,
    UnreadableBody,
    NonUtf8Body,
    BadJson,
    MethodNotSet,
    BadQueueId,
    QueueDisabled,
    QueueNotLocal,
    LocalOnlyMethod,
    EmptyResult,
    Internal,
}

impl Fault {
    /// Input errors are 400, policy violations 403, internal failures 500.
    pub open spec fn status_spec(self) -> u16 {
        match self {
            Fault::NotPost | Fault::UnreadableBody | Fault::NonUtf8Body | Fault::BadJson
            | Fault::MethodNotSet => 400,
            Fault::BadQueueId | Fault::QueueDisabled | Fault::QueueNotLocal
            | Fault::LocalOnlyMethod => 403,
            Fault::EmptyResult | Fault::Internal => 500,
        }
    }

    pub open spec fn message_spec(self) -> Seq<char> {
        match self {
            Fault::NotPost => "Only POST requests are supported!"@,
            Fault::UnreadableBody => "Could not read request body"@,
            Fault::NonUtf8Body => "Non-utf8 character in request body?"@,
            Fault::BadJson => "Could not parse request body as JSON"@,
            Fault::MethodNotSet => "Method is not set!"@,
            Fault::BadQueueId => "queueid must be unsigned integer!"@,
            Fault::QueueDisabled => "Can't queue the command when ws endpoint is disabled!"@,
            Fault::QueueNotLocal => "Can queue the command from localhost only!"@,
            Fault::LocalOnlyMethod => "Selected method can be called from localhost only!"@,
            Fault::EmptyResult => "Request execution result is empty"@,
            Fault::Internal => "Error occurred"@,
        }
    }

    pub fn status(&self) -> (r: u16)
        ensures
            r == self.status_spec(),
    {
        match self {
            Fault::NotPost | Fault::UnreadableBody | Fault::NonUtf8Body | Fault::BadJson
            | Fault::MethodNotSet => 400,
            Fault::BadQueueId | Fault::QueueDisabled | Fault::QueueNotLocal
            | Fault::LocalOnlyMethod => 403,
            Fault::EmptyResult | Fault::Internal => 500,
        }
    }

    pub fn message(&self) -> (r: &'static str)
        ensures
            r@ == self.message_spec(),
    {
        match self {
            Fault::NotPost => "Only POST requests are supported!",
            Fault::UnreadableBody => "Could not read request body",
            Fault::NonUtf8Body => "Non-utf8 character in request body?",
            Fault::BadJson => "Could not parse request body as JSON",
            Fault::MethodNotSet => "Method is not set!",
            Fault::BadQueueId => "queueid must be unsigned integer!",
            Fault::QueueDisabled => "Can't queue the command when ws endpoint is disabled!",
            Fault::QueueNotLocal => "Can queue the command from localhost only!",
            Fault::LocalOnlyMethod => "Selected method can be called from localhost only!",
            Fault::EmptyResult => "Request execution result is empty",
            Fault::Internal => "Error occurred",
        }
    }
}

/// Every error message is written into JSON without escapes.
pub proof fn lemma_message_plain(f: Fault)
    ensures
        plain_text(f.message_spec()),
{
    match f {
        Fault::NotPost => { reveal_strlit("Only POST requests are supported!"); },
        Fault::UnreadableBody => { reveal_strlit("Could not read request body"); },
        Fault::NonUtf8Body => { reveal_strlit("Non-utf8 character in request body?"); },
        Fault::BadJson => { reveal_strlit("Could not parse request body as JSON"); },
        Fault::MethodNotSet => { reveal_strlit("Method is not set!"); },
        Fault::BadQueueId => { reveal_strlit("queueid must be unsigned integer!"); },
        Fault::QueueDisabled => { reveal_strlit("Can't queue the command when ws endpoint is disabled!"); },
        Fault::QueueNotLocal => { reveal_strlit("Can queue the command from localhost only!"); },
        Fault::LocalOnlyMethod => { reveal_strlit("Selected method can be called from localhost only!"); },
        Fault::EmptyResult => { reveal_strlit("Request execution result is empty"); },
        Fault::Internal => { reveal_strlit("Error occurred"); },
    }
}

/// The `queueid` member of a call: missing or `null`, a non-negative
/// integer, or anything else.
#[derive(Clone, Copy, Debug, PartialEq, Eq, Structural)]
pub enum QueueId {
    Absent,
    Unsigned(u64),
    Invalid,
}

/// Where a validated call goes.
#[derive(Clone, Copy, Debug, PartialEq, Eq, Structural)]
pub enum Route {
    /// Forward the payload to the interprocess queue under this id.
    Queue(u64),
    /// Run the call on the native engine.
    Process,
    /// Refuse the call.
    Deny(Fault),
}

/// The methods that a caller other than the local host may call.
pub open spec fn remote_callable(method: Seq<char>) -> bool {
    method == "psock"@ || method == "ticker"@ || method == "balances"@ || method == "getprice"@
        || method == "notify"@ || method == "getpeers"@ || method == "orderbook"@
        || method == "statsdisp"@ || method == "fundvalue"@ || method == "help"@
        || method == "getcoins"@ || method == "pricearray"@ || method == "balance"@
        || method == "tradesarray"@
}

/// Whether a method may be called from a remote origin.
pub fn lp_valid_remote_method(method: &str) -> (r: bool)
    ensures
        r == remote_callable(method@),
{
    str_eq(method, "psock") || str_eq(method, "ticker") || str_eq(method, "balances")
        || str_eq(method, "getprice") || str_eq(method, "notify") || str_eq(method, "getpeers")
        || str_eq(method, "orderbook") || str_eq(method, "statsdisp")
        || str_eq(method, "fundvalue") || str_eq(method, "help") || str_eq(method, "getcoins")
        || str_eq(method, "pricearray") || str_eq(method, "balance")
        || str_eq(method, "tradesarray")
}

/// The queue is considered first; only a call without a queue id meets the
/// allow-list.
pub open spec fn route_spec(method: Seq<char>, queueid: QueueId, loopback: bool, ipc_enabled: bool) -> Route {
    match queueid {
        QueueId::Invalid => Route::Deny(Fault::BadQueueId),
        QueueId::Unsigned(id) => if !ipc_enabled {
            Route::Deny(Fault::QueueDisabled)
        } else if !loopback {
            Route::Deny(Fault::QueueNotLocal)
        } else {
            Route::Queue(id)
        },
        QueueId::Absent => if !loopback && !remote_callable(method) {
            Route::Deny(Fault::LocalOnlyMethod)
        } else {
            Route::Process
        },
    }
}

/// Decides where a call with a valid method goes, given whether it came from
/// the local host and whether the interprocess queue is enabled.
pub fn route(method: &str, queueid: QueueId, loopback: bool, ipc_enabled: bool) -> (r: Route)
    ensures
        r == route_spec(method@, queueid, loopback, ipc_enabled),
{
    match queueid {
        QueueId::Invalid => Route::Deny(Fault::BadQueueId),
        QueueId::Unsigned(id) => if !ipc_enabled {
            Route::Deny(Fault::QueueDisabled)
        } else if !loopback {
            Route::Deny(Fault::QueueNotLocal)
        } else {
            Route::Queue(id)
        },
        QueueId::Absent => if !loopback && !lp_valid_remote_method(method) {
            Route::Deny(Fault::LocalOnlyMethod)
        } else {
            Route::Process
        },
    }
}

} // verus!
