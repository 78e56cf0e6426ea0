use mm_rpc::json::error_body;
use mm_rpc::policy::{lp_valid_remote_method, route, Fault, QueueId, Route};
use mm_rpc::service::{dispatch, exec_path, finish_native, read_call, ExecPath, HttpReply, Step};

fn reply_of(step: Step) -> HttpReply {
    match step {
        Step::Reply(r) => r,
        other => panic!("expected a reply, got {:?}", other),
    }
}

fn local(body: &str) -> Step {
    dispatch(true, body.as_bytes(), true, true)
}

fn remote(body: &str) -> Step {
    dispatch(true, body.as_bytes(), false, true)
}

fn assert_single_error_member(body: &str) {
    let v: serde_json::Value = serde_json::from_str(body).unwrap();
    let obj = v.as_object().unwrap();
    assert_eq!(obj.len(), 1);
    assert!(obj.get("error").unwrap().is_string());
}

#[test]
fn allow_list_members() {
    for m in [
        "psock", "ticker", "balances", "getprice", "notify", "getpeers", "orderbook",
        "statsdisp", "fundvalue", "help", "getcoins", "pricearray", "balance", "tradesarray",
    ] {
        assert!(lp_valid_remote_method(m), "{}", m);
    }
}

#[test]
fn allow_list_non_members() {
    for m in ["version", "", "PSOCK", "psock ", "balancess", "stop", "buy"] {
        assert!(!lp_valid_remote_method(m), "{}", m);
    }
}

#[test]
fn non_post_is_refused() {
    let r = reply_of(dispatch(false, br#"{"method":"version"}"#, true, true));
    assert_eq!(r.status, 400);
    assert_eq!(r.body, r#"{"error":"Only POST requests are supported!"}"#);
    let r = reply_of(dispatch(false, b"", false, false));
    assert_eq!(r.status, 400);
    assert!(r.body.contains("error"));
}

#[test]
fn non_utf8_body_is_refused() {
    let r = reply_of(dispatch(true, &[0x7b, 0xff, 0xfe, 0x7d], true, true));
    assert_eq!(r.status, 400);
    assert_eq!(r.body, r#"{"error":"Non-utf8 character in request body?"}"#);
}

#[test]
fn malformed_json_is_refused() {
    let r = reply_of(local(r#"{"method":"#));
    assert_eq!(r.status, 400);
    assert_eq!(r.body, r#"{"error":"Could not parse request body as JSON"}"#);
}

#[test]
fn missing_method_is_refused() {
    for body in [r#"{}"#, r#"{"method":5}"#, r#"{"method":null}"#, r#"{"method":["a"]}"#, r#"[1,2]"#, r#""version""#] {
        let r = reply_of(local(body));
        assert_eq!(r.status, 400, "{}", body);
        assert_eq!(r.body, r#"{"error":"Method is not set!"}"#);
    }
}

#[test]
fn remote_method_outside_allow_list_is_refused() {
    for m in ["version", "buy", "stop"] {
        let r = reply_of(remote(&format!(r#"{{"method":"{}"}}"#, m)));
        assert_eq!(r.status, 403);
        assert_eq!(r.body, r#"{"error":"Selected method can be called from localhost only!"}"#);
    }
}

#[test]
fn remote_allowed_method_runs_on_pool() {
    let body = r#"{"method":"orderbook","base":"KMD","rel":"BTC"}"#;
    match remote(body) {
        Step::Execute { path, payload } => {
            assert_eq!(path, ExecPath::Pool);
            assert_eq!(payload, body);
        }
        other => panic!("{:?}", other),
    }
}

#[test]
fn version_runs_inline() {
    match local(r#"{"method":"version"}"#) {
        Step::Execute { path, .. } => assert_eq!(path, ExecPath::Inline),
        other => panic!("{:?}", other),
    }
    assert_eq!(exec_path("version"), ExecPath::Inline);
    assert_eq!(exec_path("versions"), ExecPath::Pool);
    assert_eq!(exec_path("buy"), ExecPath::Pool);
}

#[test]
fn local_method_runs_on_pool() {
    match local(r#"{"method":"buy","relvolume":1}"#) {
        Step::Execute { path, .. } => assert_eq!(path, ExecPath::Pool),
        other => panic!("{:?}", other),
    }
}

#[test]
fn invalid_queueid_is_refused() {
    for q in [r#""7""#, "-1", "1.5", "true", "[]", "18446744073709551616"] {
        let body = format!(r#"{{"method":"buy","queueid":{}}}"#, q);
        for step in [local(&body), remote(&body), dispatch(true, body.as_bytes(), true, false)] {
            let r = reply_of(step);
            assert_eq!(r.body, r#"{"error":"queueid must be unsigned integer!"}"#, "{}", q);
        }
    }
}

#[test]
fn null_queueid_counts_as_absent() {
    match local(r#"{"method":"buy","queueid":null}"#) {
        Step::Execute { path, .. } => assert_eq!(path, ExecPath::Pool),
        other => panic!("{:?}", other),
    }
}

#[test]
fn local_queued_call_is_forwarded() {
    let body = r#"{"method":"buy","queueid":42}"#;
    match local(body) {
        Step::Enqueue { queueid, payload, reply } => {
            assert_eq!(queueid, 42);
            assert_eq!(payload, body);
            assert_eq!(reply.status, 200);
            assert_eq!(reply.body, r#"{"result":"success","status":"queued"}"#);
        }
        other => panic!("{:?}", other),
    }
    match local(r#"{"method":"x","queueid":18446744073709551615}"#) {
        Step::Enqueue { queueid, .. } => assert_eq!(queueid, u64::MAX),
        other => panic!("{:?}", other),
    }
}

#[test]
fn queue_disabled_is_refused() {
    let r = reply_of(dispatch(true, br#"{"method":"buy","queueid":0}"#, true, false));
    assert_eq!(r.status, 403);
    assert_eq!(r.body, r#"{"error":"Can't queue the command when ws endpoint is disabled!"}"#);
}

#[test]
fn remote_queue_is_refused() {
    let r = reply_of(remote(r#"{"method":"psock","queueid":3}"#));
    assert_eq!(r.status, 403);
    assert_eq!(r.body, r#"{"error":"Can queue the command from localhost only!"}"#);
}

#[test]
fn route_checks_queue_before_allow_list() {
    assert_eq!(route("buy", QueueId::Unsigned(1), false, true), Route::Deny(Fault::QueueNotLocal));
    assert_eq!(route("buy", QueueId::Invalid, false, true), Route::Deny(Fault::BadQueueId));
    assert_eq!(route("buy", QueueId::Absent, false, true), Route::Deny(Fault::LocalOnlyMethod));
    assert_eq!(route("ticker", QueueId::Absent, false, false), Route::Process);
    assert_eq!(route("buy", QueueId::Absent, true, false), Route::Process);
    assert_eq!(route("buy", QueueId::Unsigned(9), true, true), Route::Queue(9));
}

#[test]
fn native_output_becomes_reply() {
    let r = finish_native(Some(br#"{"result":"ok"}"#.to_vec()));
    assert_eq!(r.status, 200);
    assert_eq!(r.body, r#"{"result":"ok"}"#);
}

#[test]
fn empty_native_output_is_internal_error() {
    for out in [None, Some(Vec::new()), Some(vec![0xc3, 0x28])] {
        let r = finish_native(out);
        assert_eq!(r.status, 500);
        assert_eq!(r.body, r#"{"error":"Request execution result is empty"}"#);
    }
}

#[test]
fn error_body_escapes_message() {
    assert_eq!(error_body("a\"b\\c"), r#"{"error":"a\"b\\c"}"#);
    assert_eq!(error_body("line\nbreak"), r#"{"error":"line\nbreak"}"#);
    assert_eq!(error_body(""), r#"{"error":""}"#);
}

#[test]
fn fault_statuses() {
    assert_eq!(Fault::NotPost.status(), 400);
    assert_eq!(Fault::UnreadableBody.status(), 400);
    assert_eq!(Fault::BadJson.status(), 400);
    assert_eq!(Fault::LocalOnlyMethod.status(), 403);
    assert_eq!(Fault::QueueDisabled.status(), 403);
    assert_eq!(Fault::EmptyResult.status(), 500);
    assert_eq!(Fault::Internal.status(), 500);
    assert_eq!(Fault::Internal.message(), "Error occurred");
}

#[test]
fn every_error_body_has_one_error_member() {
    let faults = [
        Fault::NotPost, Fault::UnreadableBody, Fault::NonUtf8Body, Fault::BadJson,
        Fault::MethodNotSet, Fault::BadQueueId, Fault::QueueDisabled, Fault::QueueNotLocal,
        Fault::LocalOnlyMethod, Fault::EmptyResult, Fault::Internal,
    ];
    for f in faults {
        let r = mm_rpc::service::fault_response(f);
        assert_eq!(r.status, f.status());
        assert_single_error_member(&r.body);
        assert_eq!(r.body, format!(r#"{{"error":"{}"}}"#, f.message()));
    }
}

#[test]
fn read_call_reads_method_and_queueid() {
    let c = read_call(r#"{"method":"buy","queueid":7,"x":1}"#);
    assert_eq!(c.method.as_deref(), Some("buy"));
    assert_eq!(c.queueid, QueueId::Unsigned(7));
    let c = read_call(r#"{"method":3,"queueid":null}"#);
    assert_eq!(c.method, None);
    assert_eq!(c.queueid, QueueId::Absent);
    let c = read_call(r#"{"queueid":"7"}"#);
    assert_eq!(c.method, None);
    assert_eq!(c.queueid, QueueId::Invalid);
    let c = read_call(r#"{"method":"version"}"#);
    assert_eq!(c.method.as_deref(), Some("version"));
    assert_eq!(c.queueid, QueueId::Absent);
}
