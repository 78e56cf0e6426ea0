use vstd::prelude::*;
use crate::json::{error_text, plain_text};
use crate::policy::{lemma_message_plain, remote_callable, Fault, QueueId};
use crate::service::{decision, fault_reply, native_reply, queued_body, ExecPath, StepView};

verus! {

broadcast use vstd::string::group_string_axioms;

/// A JSON object with the single member `error`, whose value is a string
/// literal without escapes.
pub open spec fn is_error_object(body: Seq<char>) -> bool {
    exists|m: Seq<char>| plain_text(m) && body == error_text(m)
}

/// Every error reply is a JSON object with exactly one member, `error`.
pub proof fn lemma_fault_reply_is_error_object(f: Fault)
    ensures
        is_error_object(fault_reply(f).1),
        fault_reply(f).0 != 200,
{
    lemma_message_plain(f);
}

/// Whatever the router answers by itself is an error object; every other
/// outcome runs or queues the call.
pub proof fn lemma_router_replies_are_errors(
    method: Option<Seq<char>>,
    queueid: QueueId,
    payload: Seq<char>,
    loopback: bool,
    ipc_enabled: bool,
)
    ensures
        decision(method, queueid, payload, loopback, ipc_enabled) matches StepView::Reply(r)
            ==> r.0 != 200 && is_error_object(r.1),
{
    match decision(method, queueid, payload, loopback, ipc_enabled) {
        StepView::Reply(r) => {
            let f = choose|f: Fault| r == fault_reply(f);
            lemma_fault_reply_is_error_object(f);
        },
        _ => {},
    }
}

/// A reply to a native call that is not a success is an error object.
pub proof fn lemma_native_failures_are_errors(output: Option<Seq<u8>>)
    ensures
        native_reply(output).0 != 200 ==> is_error_object(native_reply(output).1),
        native_reply(output).0 == 200 || native_reply(output) == fault_reply(Fault::EmptyResult),
{
    lemma_fault_reply_is_error_object(Fault::EmptyResult);
}

/// A request other than POST gets status 400 and an error object.
pub proof fn lemma_non_post_refused()
    ensures
        fault_reply(Fault::NotPost) == (400u16, "{\"error\":\"Only POST requests are supported!\"}"@),
{
    reveal_strlit("{\"error\":\"");
    reveal_strlit("\"}");
    reveal_strlit("Only POST requests are supported!");
    reveal_strlit("{\"error\":\"Only POST requests are supported!\"}");
    assert(fault_reply(Fault::NotPost).1 =~= "{\"error\":\"Only POST requests are supported!\"}"@);
}

/// A call whose method is missing or not a string gets status 400 and
/// `{"error":"Method is not set!"}`.
pub proof fn lemma_method_not_set(queueid: QueueId, payload: Seq<char>, loopback: bool, ipc_enabled: bool)
    ensures
        decision(None, queueid, payload, loopback, ipc_enabled) == StepView::Reply(
            (400u16, "{\"error\":\"Method is not set!\"}"@),
        ),
{
    reveal_strlit("{\"error\":\"");
    reveal_strlit("\"}");
    reveal_strlit("Method is not set!");
    reveal_strlit("{\"error\":\"Method is not set!\"}");
    assert(fault_reply(Fault::MethodNotSet).1 =~= "{\"error\":\"Method is not set!\"}"@);
}

/// From a remote origin, a call without a queue id to a method outside the
/// allow-list is refused with
/// `{"error":"Selected method can be called from localhost only!"}`.
pub proof fn lemma_remote_method_refused(method: Seq<char>, payload: Seq<char>, ipc_enabled: bool)
    requires
        !remote_callable(method),
    ensures
        decision(Some(method), QueueId::Absent, payload, false, ipc_enabled) == StepView::Reply(
            (403u16, "{\"error\":\"Selected method can be called from localhost only!\"}"@),
        ),
{
    reveal_strlit("{\"error\":\"");
    reveal_strlit("\"}");
    reveal_strlit("Selected method can be called from localhost only!");
    reveal_strlit("{\"error\":\"Selected method can be called from localhost only!\"}");
    assert(fault_reply(Fault::LocalOnlyMethod).1
        =~= "{\"error\":\"Selected method can be called from localhost only!\"}"@);
}

/// A queue id that is not a non-negative integer is refused with
/// `{"error":"queueid must be unsigned integer!"}`, whatever the origin.
pub proof fn lemma_bad_queueid_refused(
    method: Seq<char>,
    payload: Seq<char>,
    loopback: bool,
    ipc_enabled: bool,
)
    ensures
        decision(Some(method), QueueId::Invalid, payload, loopback, ipc_enabled) == StepView::Reply(
            (403u16, "{\"error\":\"queueid must be unsigned integer!\"}"@),
        ),
{
    reveal_strlit("{\"error\":\"");
    reveal_strlit("\"}");
    reveal_strlit("queueid must be unsigned integer!");
    reveal_strlit("{\"error\":\"queueid must be unsigned integer!\"}");
    assert(fault_reply(Fault::BadQueueId).1 =~= "{\"error\":\"queueid must be unsigned integer!\"}"@);
}

/// A local call with a valid queue id, while the queue is enabled, is
/// forwarded as it came and acknowledged with
/// `{"result":"success","status":"queued"}`; the native engine does not run.
pub proof fn lemma_local_queue_forwarded(method: Seq<char>, queueid: u64, payload: Seq<char>)
    ensures
        decision(Some(method), QueueId::Unsigned(queueid), payload, true, true) == StepView::Enqueue(
            queueid,
            payload,
            (200u16, "{\"result\":\"success\",\"status\":\"queued\"}"@),
        ),
        !(decision(Some(method), QueueId::Unsigned(queueid), payload, true, true) is Execute),
{
    assert(queued_body() == "{\"result\":\"success\",\"status\":\"queued\"}"@);
}

/// `version` never goes to the worker pool.
pub proof fn lemma_version_inline(queueid: QueueId, payload: Seq<char>, loopback: bool, ipc_enabled: bool)
    ensures
        decision(Some("version"@), queueid, payload, loopback, ipc_enabled) matches StepView::Execute(
            path,
            _,
        ) ==> path == ExecPath::Inline,
{
}

} // verus!
