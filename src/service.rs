use vstd::prelude::*;
use vstd::string::*;
use vstd::utf8::*;
use crate::json::{
    error_body, error_text, json_parses, member_is_null, member_str, member_u64, null_member,
    parse_json, string_member, u64_member,
};
use crate::policy::{lemma_message_plain, route, route_spec, Fault, QueueId, Route};
use crate::text::{str_eq, utf8_text};

verus! {

broadcast use vstd::string::group_string_axioms;

/// The status and JSON body of one HTTP reply.
#[derive(Debug)]
pub struct HttpReply {
    pub status: u16,
    pub body: String,
}

impl View for HttpReply {
    type V = (u16, Seq<char>);

    open spec fn view(&self) -> (u16, Seq<char>) {
        (self.status, self.body@)
    }
}

/// Where a call to the native engine runs.
#[derive(Clone, Copy, Debug, PartialEq, Eq, Structural)]
pub enum ExecPath {
    /// In the handler itself, without waiting on the worker pool.
    Inline,
    /// On the worker pool.
    Pool,
}

/// A call as the router sees it: its method when that is a string, and its
/// queue id.
#[derive(Debug)]
pub struct IncomingCall {
    pub method: Option<String>,
    pub queueid: QueueId,
}

/// What the handler does next with one request.
#[derive(Debug)]
pub enum Step {
    /// Send this reply; nothing else runs.
    Reply(HttpReply),
    /// Hand the payload to the interprocess queue, then send the reply.
    Enqueue { queueid: u64, payload: String, reply: HttpReply },
    /// Run the payload on the native engine and pass its output to
    /// `finish_native`.
    Execute { path: ExecPath, payload: String },
}

/// The mathematical form of a `Step`.
pub enum StepView {
    Reply((u16, Seq<char>)),
    Enqueue(u64, Seq<char>, (u16, Seq<char>)),
    Execute(ExecPath, Seq<char>),
}

impl View for Step {
    type V = StepView;

    open spec fn view(&self) -> StepView {
        match self {
            Step::Reply(r) => StepView::Reply(r@),
            Step::Enqueue { queueid, payload, reply } => StepView::Enqueue(*queueid, payload@, reply@),
            Step::Execute { path, payload } => StepView::Execute(*path, payload@),
        }
    }
}

pub open spec fn fault_reply(f: Fault) -> (u16, Seq<char>) {
    (f.status_spec(), error_text(f.message_spec()))
}

pub open spec fn queued_body() -> Seq<char> {
    "{\"result\":\"success\",\"status\":\"queued\"}"@
}

/// Only `version` runs inline.
pub open spec fn exec_path_spec(method: Seq<char>) -> ExecPath {
    if method == "version"@ {
        ExecPath::Inline
    } else {
        ExecPath::Pool
    }
}

pub open spec fn method_view(method: Option<String>) -> Option<Seq<char>> {
    match method {
        Some(m) => Some(m@),
        None => None,
    }
}

/// What becomes of a decoded call whose method is `method` (`None` when it is
/// missing or not a string), carried by `payload`.
pub open spec fn decision(
    method: Option<Seq<char>>,
    queueid: QueueId,
    payload: Seq<char>,
    loopback: bool,
    ipc_enabled: bool,
) -> StepView {
    match method {
        None => StepView::Reply(fault_reply(Fault::MethodNotSet)),
        Some(m) => match route_spec(m, queueid, loopback, ipc_enabled) {
            Route::Deny(f) => StepView::Reply(fault_reply(f)),
            Route::Queue(id) => StepView::Enqueue(id, payload, (200, queued_body())),
            Route::Process => StepView::Execute(exec_path_spec(m), payload),
        },
    }
}

/// What the handler answers once the native engine returned `output`.
pub open spec fn native_reply(output: Option<Seq<u8>>) -> (u16, Seq<char>) {
    match output {
        Some(b) => if valid_utf8(b) && decode_utf8(b).len() > 0 {
            (200, decode_utf8(b))
        } else {
            fault_reply(Fault::EmptyResult)
        },
        None => fault_reply(Fault::EmptyResult),
    }
}

/// The error reply for a fault.
pub fn fault_response(f: Fault) -> (r: HttpReply)
    ensures
        r@ == fault_reply(f),
{
    proof {
        lemma_message_plain(f);
    }
    HttpReply { status: f.status(), body: error_body(f.message()) }
}

/// The reply that acknowledges a queued call.
pub fn queued_response() -> (r: HttpReply)
    ensures
        r@ == (200u16, queued_body()),
{
    HttpReply { status: 200, body: String::from_str("{\"result\":\"success\",\"status\":\"queued\"}") }
}

/// Where a call to `method` runs.
pub fn exec_path(method: &str) -> (r: ExecPath)
    ensures
        r == exec_path_spec(method@),
{
    if str_eq(method, "version") {
        ExecPath::Inline
    } else {
        ExecPath::Pool
    }
}

/// The queue id of the JSON document in `text`: a missing or `null` member
/// counts as absent.
pub open spec fn queueid_spec(text: Seq<char>) -> QueueId {
    match null_member(text, "queueid"@) {
        None => QueueId::Absent,
        Some(true) => QueueId::Absent,
        Some(false) => match u64_member(text, "queueid"@) {
            Some(id) => QueueId::Unsigned(id),
            None => QueueId::Invalid,
        },
    }
}

/// Reads the members that the router looks at out of a JSON document.
pub fn read_call(text: &str) -> (r: IncomingCall)
    ensures
        method_view(r.method) == string_member(text@, "method"@),
        r.queueid == queueid_spec(text@),
{
    let method = member_str(text, "method");
    let queueid = match member_is_null(text, "queueid") {
        None => QueueId::Absent,
        Some(true) => QueueId::Absent,
        Some(false) => match member_u64(text, "queueid") {
            Some(id) => QueueId::Unsigned(id),
            None => QueueId::Invalid,
        },
    };
    IncomingCall { method, queueid }
}

/// Decides what becomes of a decoded call.
pub fn classify(call: &IncomingCall, payload: &str, loopback: bool, ipc_enabled: bool) -> (r: Step)
    ensures
        r@ == decision(method_view(call.method), call.queueid, payload@, loopback, ipc_enabled),
{
    match &call.method {
        None => Step::Reply(fault_response(Fault::MethodNotSet)),
        Some(m) => match route(m.as_str(), call.queueid, loopback, ipc_enabled) {
            Route::Deny(f) => Step::Reply(fault_response(f)),
            Route::Queue(id) => Step::Enqueue {
                queueid: id,
                payload: String::from_str(payload),
                reply: queued_response(),
            },
            Route::Process => Step::Execute {
                path: exec_path(m.as_str()),
                payload: String::from_str(payload),
            },
        },
    }
}

/// Handles one HTTP request: `is_post` tells its method, `body` holds its
/// body, `loopback` whether it came from the local host. The body must be
/// UTF-8 JSON whose `method` member is a string.
pub fn dispatch(is_post: bool, body: &[u8], loopback: bool, ipc_enabled: bool) -> (r: Step)
    ensures
        !is_post ==> r@ == StepView::Reply(fault_reply(Fault::NotPost)),
        is_post && !valid_utf8(body@) ==> r@ == StepView::Reply(fault_reply(Fault::NonUtf8Body)),
        is_post && valid_utf8(body@) && !json_parses(decode_utf8(body@)) ==> r@ == StepView::Reply(
            fault_reply(Fault::BadJson),
        ),
        is_post && valid_utf8(body@) && json_parses(decode_utf8(body@)) ==> r@ == decision(
            string_member(decode_utf8(body@), "method"@),
            queueid_spec(decode_utf8(body@)),
            decode_utf8(body@),
            loopback,
            ipc_enabled,
        ),
{
    if !is_post {
        return Step::Reply(fault_response(Fault::NotPost));
    }
    let text = match utf8_text(body) {
        Some(t) => t,
        None => return Step::Reply(fault_response(Fault::NonUtf8Body)),
    };
    if !parse_json(text) {
        return Step::Reply(fault_response(Fault::BadJson));
    }
    let call = read_call(text);
    classify(&call, text, loopback, ipc_enabled)
}

/// The reply for what the native engine returned: its text when that is
/// non-empty UTF-8, else an internal error.
pub fn finish_native(output: Option<Vec<u8>>) -> (r: HttpReply)
    ensures
        r@ == native_reply(match output {
            Some(b) => Some(b@),
            None => None,
        }),
{
    match output {
        None => fault_response(Fault::EmptyResult),
        Some(b) => match utf8_text(b.as_slice()) {
            Some(t) => if t.is_empty() {
                fault_response(Fault::EmptyResult)
            } else {
                HttpReply { status: 200, body: String::from_str(t) }
            },
            None => fault_response(Fault::EmptyResult),
        },
    }
}

} // verus!
