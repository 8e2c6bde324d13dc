use codex_desktop::bridge::{
    shutdown_resolution, Bridge, BridgeError, EofOutcome, LineAction, ProcessState,
    ShutdownOutcome,
};
use codex_desktop::codec::{
    classify, encode_call_line, encode_notification_line, encode_response_line, IpcBridge, Message,
};
use codex_desktop::ipc::{
    approval_result_json, parse_approval_decision, ApprovalDecision, ApprovalResponseResult,
    ExecPolicyAmendment,
};
use codex_desktop::registry::Registry;
use codex_desktop::spawn::{candidate_install_paths, select_binary};

// ==================== codec ====================

#[test]
fn encode_call_line_frames_exactly() {
    let line = encode_call_line(7, "thread/start", "{\"cwd\":\"/tmp\"}");
    assert_eq!(line, "{\"id\":7,\"method\":\"thread/start\",\"params\":{\"cwd\":\"/tmp\"}}\n");
}

#[test]
fn encode_call_line_escapes_method() {
    let line = encode_call_line(1, "we\"ird\\name\n", "{}");
    assert_eq!(line, "{\"id\":1,\"method\":\"we\\\"ird\\\\name\\n\",\"params\":{}}\n");
}

#[test]
fn encode_notification_line_has_no_id() {
    let line = encode_notification_line("initialized", "{}");
    assert_eq!(line, "{\"method\":\"initialized\",\"params\":{}}\n");
}

#[test]
fn encode_response_line_carries_id_and_result() {
    let line = encode_response_line(42, "{\"decision\":\"accept\"}");
    assert_eq!(line, "{\"id\":42,\"result\":{\"decision\":\"accept\"}}\n");
}

#[test]
fn classify_reads_field_presence() {
    match classify("{\"id\":5,\"result\":\"B\"}") {
        Message::Response { id, outcome } => {
            assert_eq!(id, 5);
            assert_eq!(outcome.unwrap(), "\"B\"");
        }
        _ => panic!("expected a response"),
    }
    match classify("{\"id\":9,\"error\":{\"code\":-32000,\"message\":\"boom\"}}") {
        Message::Response { id, outcome } => {
            assert_eq!(id, 9);
            let err = outcome.unwrap_err();
            assert_eq!(err.code, -32000);
            assert_eq!(err.message, "boom");
        }
        _ => panic!("expected an error response"),
    }
    match classify("{\"id\":42,\"method\":\"approval/request\",\"params\":{\"a\":1}}") {
        Message::ServerRequest { id, method, params } => {
            assert_eq!(id, 42);
            assert_eq!(method, "approval/request");
            assert_eq!(params, "{\"a\":1}");
        }
        _ => panic!("expected a server request"),
    }
    match classify("{\"method\":\"item/started\",\"params\":null}") {
        Message::Notification { method, params } => {
            assert_eq!(method, "item/started");
            assert_eq!(params, "null");
        }
        _ => panic!("expected a notification"),
    }
    assert!(matches!(classify("this is not json"), Message::Malformed));
    assert!(matches!(classify("{\"neither\":1}"), Message::Malformed));
}

#[test]
fn map_method_translates_known_names() {
    assert_eq!(IpcBridge::map_method("startThread"), "thread/start");
    assert_eq!(IpcBridge::map_method("logout"), "account/logout");
    assert_eq!(IpcBridge::map_method("somethingElse"), "somethingElse");
}

#[test]
fn map_event_hyphenates_separators() {
    assert_eq!(IpcBridge::map_event("item/started"), "item-started");
    assert_eq!(IpcBridge::map_event("a/b/c"), "a-b-c");
    assert_eq!(IpcBridge::map_event("plain"), "plain");
}

// ==================== registry ====================

#[test]
fn registry_out_of_order_completion() {
    // Two concurrent calls with ids 5 and 6; responses arrive as 6 then 5.
    let mut reg: Registry<&str> = Registry::new();
    reg.register(5, "caller-5");
    reg.register(6, "caller-6");
    assert_eq!(reg.complete(6), Some("caller-6"));
    assert_eq!(reg.complete(5), Some("caller-5"));
    assert_eq!(reg.complete(5), None);
}

#[test]
fn registry_take_all_drains() {
    let mut reg: Registry<u32> = Registry::new();
    reg.register(1, 11);
    reg.register(2, 22);
    let mut all = reg.take_all();
    all.sort();
    assert_eq!(all, vec![(1, 11), (2, 22)]);
    assert!(!reg.contains(1));
    assert!(!reg.contains(2));
}

// ==================== spawn (P5) ====================

#[test]
fn spawn_with_unresolvable_binary_fails() {
    let candidates = candidate_install_paths("/home/u");
    assert_eq!(candidates[0], "/home/u/.cargo/bin/codex");
    assert_eq!(candidates[3], "/opt/homebrew/bin/codex");
    let probed = vec![false, false, false, false];
    let r = select_binary(None, &candidates, &probed);
    assert!(matches!(r, Err(BridgeError::BinaryNotFound)));
    // No bridge (and so no process) is created on that path.
}

#[test]
fn spawn_prefers_path_lookup_then_first_candidate() {
    let candidates = candidate_install_paths("/home/u");
    let probed = vec![false, true, true, false];
    let r = select_binary(Some("/usr/bin/codex".to_string()), &candidates, &probed);
    assert_eq!(r.unwrap(), "/usr/bin/codex");
    let r = select_binary(None, &candidates, &probed);
    assert_eq!(r.unwrap(), "/home/u/.local/bin/codex");
}

// ==================== handshake (P6) ====================

#[test]
fn handshake_completes_and_becomes_ready() {
    let mut bridge: Bridge<&str> = Bridge::new();
    assert!(matches!(bridge.current_state(), ProcessState::Uninitialized));

    let (id, line) = bridge.begin_handshake("{\"clientInfo\":{}}", "init-caller").unwrap();
    assert_eq!(id, 1);
    assert_eq!(line, "{\"id\":1,\"method\":\"initialize\",\"params\":{\"clientInfo\":{}}}\n");
    assert!(matches!(bridge.current_state(), ProcessState::Initializing));

    // The response to the initialize call arrives.
    match bridge.on_line("{\"id\":1,\"result\":{}}") {
        LineAction::Fulfil { id, handle, outcome } => {
            assert_eq!(id, 1);
            assert_eq!(handle, "init-caller");
            assert_eq!(outcome.unwrap(), "{}");
        }
        _ => panic!("expected the initialize call to be fulfilled"),
    }

    // The handshake finishes: an `initialized` notification with no id, and
    // the state becomes Ready.
    let line = bridge.complete_handshake().unwrap();
    assert_eq!(line, "{\"method\":\"initialized\",\"params\":{}}\n");
    assert!(bridge.is_ready());
}

// ==================== calls before Ready (P3) ====================

#[test]
fn call_before_ready_fails_and_writes_nothing() {
    let mut bridge: Bridge<u32> = Bridge::new();
    let r = bridge.begin_call("thread/start", "{}", 1);
    assert!(matches!(r, Err(BridgeError::NotReady)));
    // Nothing was registered, so no line could reach the subprocess.
    assert!(matches!(bridge.current_state(), ProcessState::Uninitialized));

    let r = bridge.notify("x", "{}");
    assert!(matches!(r, Err(BridgeError::NotReady)));
}

// ==================== out-of-order responses (P7) ====================

fn ready_bridge() -> Bridge<&'static str> {
    let mut bridge: Bridge<&'static str> = Bridge::new();
    bridge.begin_handshake("{}", "init").unwrap();
    match bridge.on_line("{\"id\":1,\"result\":{}}") {
        LineAction::Fulfil { .. } => {}
        _ => panic!("handshake response expected"),
    }
    bridge.complete_handshake().unwrap();
    bridge
}

#[test]
fn responses_match_by_id_not_arrival_order() {
    let mut bridge = ready_bridge();
    // Drive the counter to 5 and 6.
    let (id_a, _) = bridge.begin_call("a", "{}", "discard-2").unwrap();
    let (id_b, _) = bridge.begin_call("b", "{}", "discard-3").unwrap();
    let (id_c, _) = bridge.begin_call("c", "{}", "discard-4").unwrap();
    assert_eq!((id_a, id_b, id_c), (2, 3, 4));
    let (id5, _) = bridge.begin_call("first", "{}", "caller-5").unwrap();
    let (id6, _) = bridge.begin_call("second", "{}", "caller-6").unwrap();
    assert_eq!((id5, id6), (5, 6));

    // Inbound lines arrive out of order: id 6 first, then id 5.
    match bridge.on_line("{\"id\":6,\"result\":\"B\"}") {
        LineAction::Fulfil { id, handle, outcome } => {
            assert_eq!(id, 6);
            assert_eq!(handle, "caller-6");
            assert_eq!(outcome.unwrap(), "\"B\"");
        }
        _ => panic!("expected id 6 to resolve"),
    }
    match bridge.on_line("{\"id\":5,\"result\":\"A\"}") {
        LineAction::Fulfil { id, handle, outcome } => {
            assert_eq!(id, 5);
            assert_eq!(handle, "caller-5");
            assert_eq!(outcome.unwrap(), "\"A\"");
        }
        _ => panic!("expected id 5 to resolve"),
    }
}

// ==================== malformed lines (P4) ====================

#[test]
fn malformed_lines_resolve_nothing() {
    let mut bridge = ready_bridge();
    let (id, _) = bridge.begin_call("a", "{}", "caller").unwrap();

    assert!(matches!(bridge.on_line("garbage"), LineAction::Ignore));
    assert!(matches!(bridge.on_line(""), LineAction::Ignore));
    assert!(matches!(bridge.on_line("{\"result\":1}"), LineAction::Ignore));
    assert!(matches!(bridge.on_line("[1,2,3]"), LineAction::Ignore));

    // The pending call is untouched and still resolvable.
    match bridge.on_line("{\"id\":2,\"result\":null}") {
        LineAction::Fulfil { id: got, handle, .. } => {
            assert_eq!(got, id);
            assert_eq!(handle, "caller");
        }
        _ => panic!("the pending call must still resolve"),
    }
}

#[test]
fn stale_response_ids_are_discarded() {
    let mut bridge = ready_bridge();
    let (id, _) = bridge.begin_call("a", "{}", "caller").unwrap();
    // The call times out: its entry is removed.
    assert_eq!(bridge.on_timeout(id), Some("caller"));
    // A response arriving later finds nobody and is dropped.
    assert!(matches!(bridge.on_line("{\"id\":2,\"result\":\"late\"}"), LineAction::Ignore));
}

// ==================== server requests and respond (P8) ====================

#[test]
fn server_request_emits_event_and_respond_answers_it() {
    let mut bridge = ready_bridge();
    match bridge.on_line("{\"id\":42,\"method\":\"approval/request\",\"params\":{\"kind\":\"exec\"}}") {
        LineAction::Emit { event, request_id, params } => {
            assert_eq!(event, "approval-request");
            assert_eq!(request_id, Some(42));
            assert_eq!(params, "{\"kind\":\"exec\"}");
        }
        _ => panic!("expected an emitted server request"),
    }

    // The eventual decision is written back as a response carrying id 42.
    let decision = parse_approval_decision("accept", None).unwrap();
    let result = approval_result_json(&ApprovalResponseResult { decision });
    let line = bridge.respond(42, &result).unwrap();
    assert_eq!(line, "{\"id\":42,\"result\":{\"decision\":\"accept\"}}\n");
}

#[test]
fn approval_decisions_parse_and_render() {
    assert!(matches!(
        parse_approval_decision("decline", None),
        Ok(ApprovalDecision::Decline)
    ));
    assert!(matches!(
        parse_approval_decision("cancel", None),
        Ok(ApprovalDecision::Cancel)
    ));
    assert!(parse_approval_decision("acceptWithExecpolicyAmendment", None).is_err());
    assert!(parse_approval_decision("bogus", None).is_err());

    let amendment = ExecPolicyAmendment { command: vec!["git".to_string(), "sta\"tus".to_string()] };
    let decision = parse_approval_decision(
        "acceptWithExecpolicyAmendment",
        Some(amendment),
    )
    .unwrap();
    let json = approval_result_json(&ApprovalResponseResult { decision });
    assert_eq!(
        json,
        "{\"decision\":{\"acceptWithExecpolicyAmendment\":{\"execpolicyAmendment\":{\"command\":[\"git\",\"sta\\\"tus\"]}}}}"
    );
}

// ==================== disconnect (P9) ====================

#[test]
fn eof_fires_disconnected_exactly_once_and_fails_pending() {
    let mut bridge = ready_bridge();
    let (id5, _) = bridge.begin_call("a", "{}", "caller-a").unwrap();
    let (id6, _) = bridge.begin_call("b", "{}", "caller-b").unwrap();

    let EofOutcome { emit_disconnected, mut failed } = bridge.on_eof();
    assert!(emit_disconnected);
    failed.sort();
    assert_eq!(failed, vec![(id5, "caller-a"), (id6, "caller-b")]);

    // A second end-of-stream does not emit the event again.
    let EofOutcome { emit_disconnected, failed } = bridge.on_eof();
    assert!(!emit_disconnected);
    assert!(failed.is_empty());
}

// ==================== shutdown (P10) ====================

#[test]
fn shutdown_forced_after_grace_period() {
    let mut bridge = ready_bridge();
    // The first shutdown request performs the teardown.
    assert!(bridge.begin_shutdown());
    assert!(matches!(bridge.current_state(), ProcessState::ShuttingDown));

    // The subprocess ignores the closed input: the grace period expires with
    // no observed exit, so the process is force-killed.
    let outcome = shutdown_resolution(None);
    assert_eq!(outcome, ShutdownOutcome::ForcedKill);
    bridge.finish_shutdown();
    assert!(matches!(bridge.current_state(), ProcessState::Terminated));

    // Shutting down again is a no-op.
    assert!(!bridge.begin_shutdown());
    assert!(matches!(bridge.current_state(), ProcessState::Terminated));
}

#[test]
fn shutdown_reports_voluntary_exit() {
    assert_eq!(shutdown_resolution(Some(0)), ShutdownOutcome::Exited(0));
    assert_eq!(shutdown_resolution(Some(137)), ShutdownOutcome::Exited(137));
}
