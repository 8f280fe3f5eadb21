use codex_bridge::app_command::{
    AppCommand, CommandExecutionApprovalDecision, FileChangeApprovalDecision,
    ToolRequestUserInputAnswer, ToolRequestUserInputResponse,
};
use codex_bridge::app_event::{AppEvent, AppEventSender, ExitMode};
use codex_bridge::control_response::{response_err, response_ok, ControlResponse};
use codex_bridge::control_socket::{
    normalize_thread_name, parse_exec_approval_decision, parse_patch_approval_decision,
    parse_thread_id, process_request, process_request_without_cache, ApprovalKind, ControlCommand,
    ControlRequest, ControlState, UserInputPayload, MAX_EXTERNAL_BTW_PROMPT_BYTES,
    REQUEST_ID_MAX_CHARS,
};
use codex_bridge::json::{member, Json};
use codex_bridge::request_cache::{RequestCache, REQUEST_CACHE_CAPACITY};
use codex_bridge::thread_id::{fresh_epoch, ThreadId};
use tokio::sync::mpsc::error::TryRecvError;
use tokio::sync::mpsc::{unbounded_channel, UnboundedReceiver};

fn test_state() -> (ControlState, RequestCache, UnboundedReceiver<AppEvent>) {
    let (tx, rx) = unbounded_channel();
    let sender = AppEventSender::new(tx);
    let state = ControlState::new(sender, "epoch-1".to_string());
    (state, RequestCache::default(), rx)
}

fn request(id: &str, command: ControlCommand) -> ControlRequest {
    ControlRequest { request_id: id.to_string(), expected_epoch: None, command }
}

fn code(response: &ControlResponse) -> Option<&str> {
    response.error.as_ref().map(|error| error.code.as_str())
}

fn message(response: &ControlResponse) -> Option<&str> {
    response.error.as_ref().map(|error| error.message.as_str())
}

fn accepted(operation: &str) -> Option<Json> {
    Some(Json::Object(vec![
        member("status", Json::text("accepted")),
        member("operation", Json::text(operation)),
    ]))
}

fn new_thread_id() -> ThreadId {
    ThreadId::from_string(&fresh_epoch()).unwrap()
}

fn check_get_epoch() {
    let (mut state, mut cache, _rx) = test_state();
    let response = process_request(
        &mut state,
        &mut cache,
        ControlRequest {
            request_id: "req-1".to_string(),
            expected_epoch: None,
            command: ControlCommand::GetEpoch,
        },
    );
    assert!(response.ok);
    assert_eq!(response.epoch, "epoch-1");
}

fn check_duplicate() {
    let (mut state, mut cache, mut rx) = test_state();
    let request = ControlRequest {
        request_id: "req-dup".to_string(),
        expected_epoch: None,
        command: ControlCommand::SubmitMessage { message: "hello".to_string(), thread_id: None },
    };
    let first = process_request(&mut state, &mut cache, request.clone());
    let second = process_request(&mut state, &mut cache, request);
    assert!(first.ok);
    assert_eq!(first.request_id, second.request_id);
    assert_eq!(first.ok, second.ok);
    assert_eq!(first.epoch, second.epoch);
    match rx.try_recv() {
        Ok(AppEvent::SubmitExternalLiteralUserMessage { text }) => assert_eq!(text, "hello"),
        other => panic!("expected one external user message event, got {other:?}"),
    }
    assert!(matches!(rx.try_recv(), Err(TryRecvError::Empty)));
}

fn check_set_thread_name() {
    let (mut state, mut cache, mut rx) = test_state();
    let response = process_request(
        &mut state,
        &mut cache,
        ControlRequest {
            request_id: "req-set-name".to_string(),
            expected_epoch: None,
            command: ControlCommand::SetThreadName {
                name: "  worker-one  ".to_string(),
                thread_id: None,
            },
        },
    );
    assert!(response.ok);
    match rx.try_recv() {
        Ok(AppEvent::CodexOp(AppCommand::SetThreadName { name })) => {
            assert_eq!(name, "worker-one");
        }
        other => panic!("expected set thread name command, got {other:?}"),
    }
}

fn check_set_thread_name_of_thread() {
    let (mut state, mut cache, mut rx) = test_state();
    let thread_id = new_thread_id();
    let response = process_request(
        &mut state,
        &mut cache,
        ControlRequest {
            request_id: "req-thread-set-name".to_string(),
            expected_epoch: None,
            command: ControlCommand::SetThreadName {
                name: "worker-two".to_string(),
                thread_id: Some(thread_id.to_text()),
            },
        },
    );
    assert!(response.ok);
    match rx.try_recv() {
        Ok(AppEvent::SubmitThreadOp {
            thread_id: actual_thread_id,
            op: AppCommand::SetThreadName { name },
        }) => {
            assert_eq!(actual_thread_id, thread_id);
            assert_eq!(name, "worker-two");
        }
        other => panic!("expected thread-scoped set thread name command, got {other:?}"),
    }
}

fn check_set_thread_name_empty() {
    let (mut state, mut cache, mut rx) = test_state();
    let response = process_request(
        &mut state,
        &mut cache,
        ControlRequest {
            request_id: "req-empty-name".to_string(),
            expected_epoch: None,
            command: ControlCommand::SetThreadName { name: "   ".to_string(), thread_id: None },
        },
    );
    assert!(!response.ok);
    assert_eq!(code(&response), Some("invalid_request"));
    assert!(matches!(rx.try_recv(), Err(TryRecvError::Empty)));
}

fn check_btw() {
    let (mut state, mut cache, mut rx) = test_state();
    let response = process_request(
        &mut state,
        &mut cache,
        ControlRequest {
            request_id: "req-btw".to_string(),
            expected_epoch: None,
            command: ControlCommand::SubmitBtw {
                prompt: "Summarize the current work".to_string(),
            },
        },
    );
    assert!(response.ok);
    match rx.try_recv() {
        Ok(AppEvent::StartExternalBtw { request_id, prompt }) => {
            assert_eq!(request_id, "req-btw");
            assert_eq!(prompt, "Summarize the current work");
        }
        other => panic!("expected external btw event, got {other:?}"),
    }
}

fn check_btw_empty() {
    let (mut state, mut cache, mut rx) = test_state();
    let response = process_request(
        &mut state,
        &mut cache,
        ControlRequest {
            request_id: "req-empty-btw".to_string(),
            expected_epoch: None,
            command: ControlCommand::SubmitBtw { prompt: "   ".to_string() },
        },
    );
    assert!(!response.ok);
    assert_eq!(code(&response), Some("invalid_request"));
    assert!(matches!(rx.try_recv(), Err(TryRecvError::Empty)));
}

fn check_btw_oversized() {
    let (mut state, mut cache, mut rx) = test_state();
    let response = process_request(
        &mut state,
        &mut cache,
        ControlRequest {
            request_id: "req-large-btw".to_string(),
            expected_epoch: None,
            command: ControlCommand::SubmitBtw {
                prompt: "x".repeat(MAX_EXTERNAL_BTW_PROMPT_BYTES + 1),
            },
        },
    );
    assert!(!response.ok);
    assert_eq!(code(&response), Some("invalid_request"));
    assert!(matches!(rx.try_recv(), Err(TryRecvError::Empty)));
}

fn check_stale_epoch() {
    let (mut state, mut cache, mut rx) = test_state();
    let response = process_request(
        &mut state,
        &mut cache,
        ControlRequest {
            request_id: "req-stale".to_string(),
            expected_epoch: Some("epoch-old".to_string()),
            command: ControlCommand::GetEpoch,
        },
    );
    assert!(!response.ok);
    assert_eq!(code(&response), Some("stale_epoch"));
    assert!(matches!(rx.try_recv(), Err(TryRecvError::Empty)));

    let epoch = state.epoch.clone();
    let retry = process_request(
        &mut state,
        &mut cache,
        ControlRequest {
            request_id: "req-stale".to_string(),
            expected_epoch: Some(epoch),
            command: ControlCommand::GetEpoch,
        },
    );
    assert!(retry.ok);
}

#[test]
fn control_socket_get_epoch_returns_current_epoch() {
    check_get_epoch();
}

#[test]
fn control_socket_duplicate_request_id_returns_cached_response_once() {
    check_duplicate();
}

#[test]
fn control_socket_set_thread_name_dispatches_thread_name_command() {
    check_set_thread_name();
}

#[test]
fn control_socket_set_thread_name_with_thread_id_dispatches_thread_command() {
    check_set_thread_name_of_thread();
}

#[test]
fn control_socket_set_thread_name_rejects_empty_name() {
    check_set_thread_name_empty();
}

#[test]
fn control_socket_submit_btw_dispatches_correlated_external_event() {
    check_btw();
}

#[test]
fn control_socket_submit_btw_rejects_empty_prompt() {
    check_btw_empty();
}

#[test]
fn control_socket_submit_btw_rejects_oversized_prompt() {
    check_btw_oversized();
}

#[test]
fn control_socket_expected_epoch_mismatch_returns_stale_epoch_error() {
    check_stale_epoch();
}

#[test]
fn control_socket_tests_get_epoch_returns_current_epoch() {
    check_get_epoch();
}

#[test]
fn control_socket_tests_duplicate_request_id_returns_cached_response_once() {
    check_duplicate();
}

#[test]
fn control_socket_tests_set_thread_name_dispatches_thread_name_command() {
    check_set_thread_name();
}

#[test]
fn control_socket_tests_set_thread_name_with_thread_id_dispatches_thread_command() {
    check_set_thread_name_of_thread();
}

#[test]
fn control_socket_tests_set_thread_name_rejects_empty_name() {
    check_set_thread_name_empty();
}

#[test]
fn control_socket_tests_submit_btw_dispatches_correlated_external_event() {
    check_btw();
}

#[test]
fn control_socket_tests_submit_btw_rejects_empty_prompt() {
    check_btw_empty();
}

#[test]
fn control_socket_tests_submit_btw_rejects_oversized_prompt() {
    check_btw_oversized();
}

#[test]
fn control_socket_tests_expected_epoch_mismatch_returns_stale_epoch_error() {
    check_stale_epoch();
}

#[test]
fn get_epoch_request_id_returns_fresh_result_across_listener_generations() {
    let mut cache = RequestCache::default();
    let (tx, _rx) = unbounded_channel();
    let mut first = ControlState::new(AppEventSender::new(tx.clone()), "epoch-1".to_string());
    let mut second = ControlState::new(AppEventSender::new(tx), "epoch-2".to_string());
    let request = ControlRequest {
        request_id: "same-get-epoch".to_string(),
        expected_epoch: None,
        command: ControlCommand::GetEpoch,
    };

    let first_response = process_request(&mut first, &mut cache, request.clone());
    let second_response = process_request(&mut second, &mut cache, request);

    assert_eq!(first_response.epoch, "epoch-1");
    assert_eq!(
        first_response.result,
        Some(Json::Object(vec![member("epoch", Json::text("epoch-1"))]))
    );
    assert_eq!(second_response.epoch, "epoch-2");
    assert_eq!(
        second_response.result,
        Some(Json::Object(vec![member("epoch", Json::text("epoch-2"))]))
    );
}

#[test]
fn expected_epoch_is_checked_before_cached_response() {
    let (mut state, mut cache, _rx) = test_state();
    let epoch = state.epoch.clone();
    let first = process_request(
        &mut state,
        &mut cache,
        ControlRequest {
            request_id: "req-cached-epoch".to_string(),
            expected_epoch: Some(epoch),
            command: ControlCommand::GetEpoch,
        },
    );
    assert!(first.ok);

    let stale = process_request(
        &mut state,
        &mut cache,
        ControlRequest {
            request_id: "req-cached-epoch".to_string(),
            expected_epoch: Some("epoch-old".to_string()),
            command: ControlCommand::GetEpoch,
        },
    );
    assert!(!stale.ok);
    assert_eq!(code(&stale), Some("stale_epoch"));
    assert_eq!(
        message(&stale),
        Some("expected_epoch=epoch-old does not match current epoch=epoch-1")
    );
}

#[test]
fn commands_keep_their_cached_answer_across_listener_generations() {
    let mut cache = RequestCache::default();
    let (tx, mut rx) = unbounded_channel();
    let mut first = ControlState::new(AppEventSender::new(tx.clone()), "epoch-1".to_string());
    let mut second = ControlState::new(AppEventSender::new(tx), "epoch-2".to_string());
    let submit = request(
        "req-once",
        ControlCommand::SubmitMessage { message: "once".to_string(), thread_id: None },
    );
    let answered = process_request(&mut first, &mut cache, submit.clone());
    let replayed = process_request(&mut second, &mut cache, submit);
    assert_eq!(answered, replayed);
    assert!(rx.try_recv().is_ok());
    assert!(matches!(rx.try_recv(), Err(TryRecvError::Empty)));
}

#[test]
fn request_ids_are_checked_first() {
    let (mut state, mut cache, _rx) = test_state();
    let blank = process_request(&mut state, &mut cache, request(" \u{a0}\n", ControlCommand::GetEpoch));
    assert_eq!(
        blank,
        response_err("", "epoch-1", "invalid_request", "request_id must be a non-empty string")
    );
    let exact = "x".repeat(REQUEST_ID_MAX_CHARS);
    assert!(process_request(&mut state, &mut cache, request(&exact, ControlCommand::GetEpoch)).ok);
    let long = process_request(
        &mut state,
        &mut cache,
        request(&"\u{e9}".repeat(129), ControlCommand::GetEpoch),
    );
    assert_eq!(
        long,
        response_err(
            "",
            "epoch-1",
            "invalid_request",
            "request_id exceeds max length of 256 characters"
        )
    );
}

#[test]
fn messages_for_threads_are_not_supported() {
    let (mut state, mut cache, mut rx) = test_state();
    let unsupported = process_request(
        &mut state,
        &mut cache,
        request(
            "req-thread-message",
            ControlCommand::SubmitMessage {
                message: "hello".to_string(),
                thread_id: Some(new_thread_id().to_text()),
            },
        ),
    );
    assert_eq!(code(&unsupported), Some("unsupported_request"));
    let malformed = process_request(
        &mut state,
        &mut cache,
        request(
            "req-bad-thread",
            ControlCommand::SubmitMessage {
                message: "hello".to_string(),
                thread_id: Some("thread".to_string()),
            },
        ),
    );
    assert_eq!(message(&malformed), Some("thread_id is not a valid UUID: thread"));
    let empty = process_request(
        &mut state,
        &mut cache,
        request(
            "req-empty-message",
            ControlCommand::SubmitMessage { message: "\t ".to_string(), thread_id: None },
        ),
    );
    assert_eq!(message(&empty), Some("message must be non-empty"));
    assert!(matches!(rx.try_recv(), Err(TryRecvError::Empty)));
}

#[test]
fn approvals_become_commands() {
    let (mut state, mut cache, mut rx) = test_state();
    let exec = process_request(
        &mut state,
        &mut cache,
        request(
            "req-exec",
            ControlCommand::SubmitApproval {
                id: "call-1".to_string(),
                decision: "approved_for_session".to_string(),
                approval_kind: ApprovalKind::default(),
                thread_id: None,
                turn_id: Some("turn-1".to_string()),
            },
        ),
    );
    assert_eq!(exec.result, accepted("submit_approval"));
    assert_eq!(
        rx.try_recv(),
        Ok(AppEvent::CodexOp(AppCommand::ExecApproval {
            id: "call-1".to_string(),
            turn_id: Some("turn-1".to_string()),
            decision: CommandExecutionApprovalDecision::AcceptForSession,
        }))
    );
    let patch = process_request(
        &mut state,
        &mut cache,
        request(
            "req-patch",
            ControlCommand::SubmitApproval {
                id: "call-2".to_string(),
                decision: "abort".to_string(),
                approval_kind: ApprovalKind::Patch,
                thread_id: None,
                turn_id: None,
            },
        ),
    );
    assert_eq!(patch.result, accepted("submit_approval"));
    assert_eq!(
        rx.try_recv(),
        Ok(AppEvent::CodexOp(AppCommand::PatchApproval {
            id: "call-2".to_string(),
            decision: FileChangeApprovalDecision::Cancel,
        }))
    );
    for (id, kind, expected) in [
        (
            "req-bad-exec",
            ApprovalKind::Exec,
            "exec approval decision must be one of: approved, approved_for_session, denied, abort",
        ),
        (
            "req-bad-patch",
            ApprovalKind::Patch,
            "patch approval decision must be one of: approved, approved_for_session, denied, abort",
        ),
    ] {
        let refused = process_request(
            &mut state,
            &mut cache,
            request(
                id,
                ControlCommand::SubmitApproval {
                    id: "call-3".to_string(),
                    decision: "Approved".to_string(),
                    approval_kind: kind,
                    thread_id: None,
                    turn_id: None,
                },
            ),
        );
        assert_eq!(code(&refused), Some("invalid_request"));
        assert_eq!(message(&refused), Some(expected));
    }
    assert!(matches!(rx.try_recv(), Err(TryRecvError::Empty)));
}

#[test]
fn user_input_becomes_a_command_or_an_error() {
    let (mut state, mut cache, mut rx) = test_state();
    let thread_id = new_thread_id();
    let response = ToolRequestUserInputResponse {
        answers: vec![ToolRequestUserInputAnswer {
            question_id: "q1".to_string(),
            answers: vec!["yes".to_string()],
        }],
    };
    let sent = process_request(
        &mut state,
        &mut cache,
        request(
            "req-input",
            ControlCommand::SubmitUserInput {
                id: "call-4".to_string(),
                response: UserInputPayload::Decoded(response.clone()),
                thread_id: Some(thread_id.to_text()),
            },
        ),
    );
    assert_eq!(sent.result, accepted("submit_user_input"));
    assert_eq!(
        rx.try_recv(),
        Ok(AppEvent::SubmitThreadOp {
            thread_id,
            op: AppCommand::UserInputAnswer { id: "call-4".to_string(), response },
        })
    );
    let refused = process_request(
        &mut state,
        &mut cache,
        request(
            "req-bad-input",
            ControlCommand::SubmitUserInput {
                id: "call-5".to_string(),
                response: UserInputPayload::Undecodable("missing field `answers`".to_string()),
                thread_id: None,
            },
        ),
    );
    assert_eq!(message(&refused), Some("response is invalid: missing field `answers`"));
}

#[test]
fn shutdown_names_the_exit_mode() {
    let (mut state, mut cache, mut rx) = test_state();
    for (id, immediate, mode) in [
        ("req-soft", false, ExitMode::ShutdownFirst),
        ("req-hard", true, ExitMode::Immediate),
    ] {
        let response = process_request(
            &mut state,
            &mut cache,
            request(id, ControlCommand::Shutdown { immediate }),
        );
        assert_eq!(
            response.result,
            Some(Json::Object(vec![
                member("status", Json::text("accepted")),
                member("operation", Json::text("shutdown")),
                member("immediate", Json::Bool(immediate)),
            ]))
        );
        assert_eq!(rx.try_recv(), Ok(AppEvent::Exit(mode)));
    }
}

#[test]
fn closed_channels_are_reported_and_remembered() {
    let (mut state, mut cache, rx) = test_state();
    drop(rx);
    let submit = request(
        "req-closed",
        ControlCommand::SubmitMessage { message: "hello".to_string(), thread_id: None },
    );
    let response = process_request(&mut state, &mut cache, submit.clone());
    assert_eq!(
        response,
        response_err(
            "req-closed",
            "epoch-1",
            "event_channel_closed",
            "control socket is unavailable; app event channel is closed"
        )
    );
    assert_eq!(process_request(&mut state, &mut cache, submit), response);
}

#[test]
fn requests_without_a_cache_are_answered_with_an_error() {
    let broken = process_request_without_cache(
        "epoch-1",
        &request("req-poison", ControlCommand::GetEpoch),
    );
    assert_eq!(
        broken,
        response_err("req-poison", "epoch-1", "internal_error", "control cache lock poisoned")
    );
    let blank = process_request_without_cache("epoch-1", &request("", ControlCommand::GetEpoch));
    assert_eq!(code(&blank), Some("invalid_request"));
}

#[test]
fn decisions_are_words() {
    for (word, exec, patch) in [
        (
            "approved",
            CommandExecutionApprovalDecision::Accept,
            FileChangeApprovalDecision::Accept,
        ),
        (
            "approved_for_session",
            CommandExecutionApprovalDecision::AcceptForSession,
            FileChangeApprovalDecision::AcceptForSession,
        ),
        (
            "denied",
            CommandExecutionApprovalDecision::Decline,
            FileChangeApprovalDecision::Decline,
        ),
        (
            "abort",
            CommandExecutionApprovalDecision::Cancel,
            FileChangeApprovalDecision::Cancel,
        ),
    ] {
        assert_eq!(parse_exec_approval_decision(word), Some(exec));
        assert_eq!(parse_patch_approval_decision(word), Some(patch));
    }
    assert_eq!(parse_exec_approval_decision(""), None);
    assert_eq!(parse_patch_approval_decision("approved "), None);
}

#[test]
fn thread_ids_are_uuids() {
    let text = "01957117-d96d-7f17-af57-af28ec451245";
    let id = ThreadId { uuid: 0x01957117_d96d_7f17_af57_af28ec451245 };
    assert_eq!(parse_thread_id(Some(text.to_string())), Ok(Some(id)));
    assert_eq!(parse_thread_id(Some("01957117D96D7F17AF57AF28EC451245".to_string())), Ok(Some(id)));
    assert_eq!(id.to_text(), text);
    assert_eq!(ThreadId { uuid: 0 }.to_text(), "00000000-0000-0000-0000-000000000000");
    assert_eq!(parse_thread_id(None), Ok(None));
    assert_eq!(
        parse_thread_id(Some("nope".to_string())),
        Err("thread_id is not a valid UUID: nope".to_string())
    );
}

#[test]
fn epochs_are_fresh_random_uuids() {
    let first = fresh_epoch();
    let second = fresh_epoch();
    assert_ne!(first, second);
    assert_eq!(first.len(), 36);
    assert_eq!(first.as_bytes()[14], b'4');
    assert!(matches!(first.as_bytes()[19], b'8' | b'9' | b'a' | b'b'));
}

#[test]
fn thread_names_are_normalized_once() {
    assert_eq!(normalize_thread_name("  worker-one  "), Some("worker-one".to_string()));
    assert_eq!(normalize_thread_name("worker-one"), Some("worker-one".to_string()));
    assert_eq!(normalize_thread_name("\u{3000} a b \u{2003}"), Some("a b".to_string()));
    assert_eq!(normalize_thread_name("\r\n\t "), None);
    assert_eq!(normalize_thread_name(""), None);
}

#[test]
fn cache_drops_the_oldest_answer_first() {
    let mut cache = RequestCache::new();
    for i in 0..REQUEST_CACHE_CAPACITY {
        cache.insert(format!("id-{i}"), response_ok("r", "e", Json::Unsigned(i as u64)));
    }
    assert!(cache.get("id-0").is_some());
    cache.insert("id-0".to_string(), response_ok("r", "e", Json::text("again")));
    cache.insert("one-more".to_string(), response_ok("r", "e", Json::Null));
    assert!(cache.get("id-0").is_none());
    assert_eq!(cache.get("id-1"), Some(response_ok("r", "e", Json::Unsigned(1))));
    assert_eq!(cache.get("one-more"), Some(response_ok("r", "e", Json::Null)));
}

#[test]
fn cache_replaces_an_answer_in_place() {
    let mut cache = RequestCache::new();
    cache.insert("id".to_string(), response_ok("id", "e", Json::Unsigned(1)));
    cache.insert("id".to_string(), response_ok("id", "e", Json::Unsigned(2)));
    assert_eq!(cache.get("id"), Some(response_ok("id", "e", Json::Unsigned(2))));
    assert_eq!(cache.get("other"), None);
}

#[test]
fn answers_leave_out_what_is_missing_on_the_wire() {
    assert_eq!(
        response_ok("id", "e", Json::Null).to_wire(),
        Json::Object(vec![
            member("request_id", Json::text("id")),
            member("ok", Json::Bool(true)),
            member("epoch", Json::text("e")),
            member("result", Json::Null),
        ])
    );
    assert_eq!(
        response_err("id", "e", "c", "m").to_wire(),
        Json::Object(vec![
            member("request_id", Json::text("id")),
            member("ok", Json::Bool(false)),
            member("epoch", Json::text("e")),
            member(
                "error",
                Json::Object(vec![
                    member("code", Json::text("c")),
                    member("message", Json::text("m")),
                ])
            ),
        ])
    );
}

#[test]
fn ids_are_answered_once_while_few_others_come_in() {
    for (others, replayed) in
        [(0, true), (REQUEST_CACHE_CAPACITY - 1, true), (REQUEST_CACHE_CAPACITY, false)]
    {
        let (mut state, mut cache, mut rx) = test_state();
        let empty = ControlCommand::SubmitBtw { prompt: String::new() };
        let first = process_request(&mut state, &mut cache, request("req-kept", empty));
        assert_eq!(message(&first), Some("prompt must be non-empty"));
        for i in 0..others {
            let id = format!("other-{i}");
            assert!(process_request(&mut state, &mut cache, request(&id, ControlCommand::GetEpoch)).ok);
            assert!(process_request(&mut state, &mut cache, request(&id, ControlCommand::GetEpoch)).ok);
        }
        let shutdown = ControlCommand::Shutdown { immediate: true };
        let second = process_request(&mut state, &mut cache, request("req-kept", shutdown));
        assert_eq!(second == first, replayed);
        assert_eq!(rx.try_recv().is_err(), replayed);
    }
}

#[test]
fn accepted_requests_are_delivered_requests() {
    let (mut state, mut cache, mut rx) = test_state();
    let submit = |id: &str| {
        request(
            id,
            ControlCommand::SubmitMessage { message: "m".to_string(), thread_id: None },
        )
    };
    assert!(process_request(&mut state, &mut cache, submit("open")).ok);
    assert!(rx.try_recv().is_ok());
    drop(rx);
    let closed = process_request(&mut state, &mut cache, submit("closed"));
    assert_eq!(code(&closed), Some("event_channel_closed"));
}
