use codex_bridge::app_command::{
    AppCommand, ApprovalPolicy, ApprovalsReviewer, CollaborationMode, CollaborationModeMask,
    ModeKind, PermissionProfile, Personality, ReasoningEffort, SandboxPolicy, ServiceTier, Settings,
    UserInput, UserTurn,
};
use codex_bridge::app_event::{AppEvent, AppEventSender};
use codex_bridge::channel::Outbox;
use codex_bridge::external_btw::{
    App, BtwLog, BtwNotification, ExternalBtwState, ForkConfig, TurnStatus,
};
use codex_bridge::external_literal::{
    ChatWidget, RenderedUserMessage, ThreadSessionState, WidgetConfig, WidgetEffect,
};
use codex_bridge::thread_id::{fresh_epoch, ThreadId};
use codex_bridge::thread_input::ThreadInputState;
use codex_bridge::user_message::{
    PendingSteer, PendingSteerCompareKey, QueuedInputAction, QueuedUserMessage, UserMessage,
};
use std::collections::{HashMap, VecDeque};
use tokio::sync::mpsc::{unbounded_channel, UnboundedReceiver};

fn mode(model: &str, effort: Option<ReasoningEffort>) -> CollaborationMode {
    CollaborationMode {
        mode: ModeKind::Default,
        settings: Settings {
            model: model.to_string(),
            reasoning_effort: effort,
            developer_instructions: None,
        },
    }
}

fn plan_mask() -> CollaborationModeMask {
    CollaborationModeMask {
        mode: Some(ModeKind::Plan),
        model: Some("masked".to_string()),
        reasoning_effort: None,
        developer_instructions: Some(Some("plan first".to_string())),
    }
}

fn policy(external: bool) -> SandboxPolicy {
    SandboxPolicy { external, encoded: "policy".to_string() }
}

fn profile() -> PermissionProfile {
    PermissionProfile { encoded: "profile".to_string() }
}

fn widget() -> (ChatWidget, UnboundedReceiver<AppCommand>) {
    let (tx, rx) = unbounded_channel();
    let widget = ChatWidget {
        session_configured: true,
        user_turn_pending_start: false,
        task_running: false,
        saw_plan_item_this_turn: true,
        needs_final_message_separator: true,
        collaboration_modes_enabled: true,
        effective_collaboration_mode: mode("m", Some(ReasoningEffort::High)),
        active_collaboration_mask: None,
        config: WidgetConfig {
            cwd: "/work".to_string(),
            approval_policy: ApprovalPolicy::OnRequest,
            sandbox_policy: policy(false),
            permission_profile: profile(),
            personality: Some(Personality::Friendly),
            personality_enabled: true,
            model_supports_personality: true,
            service_tier: None,
            fast_default_opt_out: None,
        },
        queued_user_messages: VecDeque::new(),
        pending_steers: VecDeque::new(),
        last_rendered_user_message_event: None,
        effects: Vec::new(),
        codex_op_tx: Outbox::new(tx),
    };
    (widget, rx)
}

fn literal(text: &str) -> QueuedUserMessage {
    QueuedUserMessage::new(
        UserMessage::from_text(text.to_string()),
        QueuedInputAction::LiteralUserTurn,
    )
}

fn steer(text: &str, action: QueuedInputAction) -> PendingSteer {
    PendingSteer {
        user_message: UserMessage::from_text(text.to_string()),
        compare_key: PendingSteerCompareKey { message: text.to_string(), image_count: 0 },
        rejection_action: action,
    }
}

fn turn(text: &str) -> UserTurn {
    UserTurn {
        items: vec![UserInput::Text { text: text.to_string(), text_elements: Vec::new() }],
        cwd: "/work".to_string(),
        approval_policy: ApprovalPolicy::OnRequest,
        sandbox_policy: Some(policy(false)),
        permission_profile: Some(profile()),
        model: "m".to_string(),
        effort: Some(ReasoningEffort::High),
        summary: None,
        service_tier: None,
        final_output_json_schema: None,
        collaboration_mode: None,
        personality: Some(Personality::Friendly),
        approvals_reviewer: None,
    }
}

fn input_state() -> ThreadInputState {
    ThreadInputState {
        pending_steers: VecDeque::new(),
        queued_user_messages: VecDeque::new(),
        rejected_steers_queue: VecDeque::new(),
        user_turn_pending_start: false,
        task_running: false,
        agent_turn_running: false,
        current_collaboration_mode: mode("thread", None),
        active_collaboration_mask: None,
    }
}

fn session(model: &str) -> ThreadSessionState {
    ThreadSessionState {
        model: model.to_string(),
        reasoning_effort: Some(ReasoningEffort::Low),
        cwd: "/thread".to_string(),
        approval_policy: ApprovalPolicy::Never,
        sandbox_policy: policy(true),
        permission_profile: Some(profile()),
        service_tier: Some(ServiceTier::Fast),
        approvals_reviewer: ApprovalsReviewer::AutoReview,
    }
}

#[test]
fn literal_text_is_submitted_and_shown() {
    let (mut widget, mut rx) = widget();
    widget.submit_external_literal_user_message("/not a command".to_string());
    assert_eq!(rx.try_recv(), Ok(AppCommand::UserTurn(turn("/not a command"))));
    assert_eq!(
        rx.try_recv(),
        Ok(AppCommand::AddToHistory { text: "/not a command".to_string() })
    );
    assert!(rx.try_recv().is_err());
    assert!(widget.is_user_turn_pending_start());
    assert!(widget.is_user_turn_pending_or_running());
    assert!(!widget.needs_final_message_separator);
    assert_eq!(
        widget.last_rendered_user_message_event,
        Some(RenderedUserMessage {
            message: "/not a command".to_string(),
            text_elements: Vec::new(),
            local_images: Vec::new(),
            remote_image_urls: Vec::new(),
        })
    );
    assert_eq!(
        widget.effects,
        vec![
            WidgetEffect::RecordVisibleUserTurnForCopy,
            WidgetEffect::AddUserPromptToHistory { text: "/not a command".to_string() },
        ]
    );
}

#[test]
fn literal_text_waits_for_its_turn() {
    for (configured, pending, running) in
        [(false, false, false), (true, true, false), (true, false, true)]
    {
        let (mut widget, mut rx) = widget();
        widget.session_configured = configured;
        widget.user_turn_pending_start = pending;
        widget.task_running = running;
        widget.queue_external_literal_user_message("first".to_string());
        widget.submit_external_literal_user_message("second".to_string());
        assert_eq!(
            widget.queued_user_messages,
            VecDeque::from(vec![literal("first"), literal("second")])
        );
        let queued = widget.queued_user_messages.pop_front().unwrap();
        widget.submit_queued_external_literal_user_message(queued);
        assert_eq!(
            widget.queued_user_messages,
            VecDeque::from(vec![literal("first"), literal("second")])
        );
        assert_eq!(widget.effects, vec![
            WidgetEffect::RefreshPendingInputPreview,
            WidgetEffect::RefreshPendingInputPreview,
            WidgetEffect::RefreshPendingInputPreview,
        ]);
        assert!(rx.try_recv().is_err());
    }
}

#[test]
fn queued_text_is_submitted_when_the_thread_is_free() {
    let (mut widget, mut rx) = widget();
    widget.submit_queued_external_literal_user_message(literal("go"));
    assert_eq!(rx.try_recv(), Ok(AppCommand::UserTurn(turn("go"))));
    assert!(widget.is_user_turn_pending_start());
    widget.user_turn_pending_start = false;
    widget.submit_queued_external_literal_user_message(literal(""));
    assert!(!widget.is_user_turn_pending_start());
}

#[test]
fn literal_text_that_is_not_taken_is_not_shown() {
    let (mut widget, rx) = widget();
    drop(rx);
    widget.submit_external_literal_user_message("lost".to_string());
    assert!(!widget.is_user_turn_pending_start());
    assert!(widget.effects.is_empty());
    assert_eq!(widget.last_rendered_user_message_event, None);
}

#[test]
fn literal_text_needs_a_model() {
    let (mut widget, mut rx) = widget();
    widget.effective_collaboration_mode = mode("  ", None);
    widget.submit_external_literal_user_message("hello".to_string());
    widget.submit_external_literal_user_message(String::new());
    assert!(rx.try_recv().is_err());
    assert_eq!(
        widget.effects,
        vec![WidgetEffect::ErrorMessage {
            message: "Thread model is unavailable. Wait for the thread to finish syncing or choose a model before sending input.".to_string(),
        }]
    );
}

#[test]
fn turns_take_their_context_from_the_widget() {
    let (mut widget, _rx) = widget();
    widget.active_collaboration_mask = Some(plan_mask());
    widget.config.sandbox_policy = policy(true);
    widget.config.service_tier = Some(ServiceTier::Flex);
    widget.config.personality_enabled = false;
    widget.task_running = true;
    let (op, history, text) = widget
        .prepare_targeted_external_literal_user_message("hi".to_string())
        .unwrap();
    let expected = UserTurn {
        sandbox_policy: Some(policy(true)),
        permission_profile: None,
        service_tier: Some(Some(ServiceTier::Flex)),
        collaboration_mode: Some(mode("m", Some(ReasoningEffort::High))),
        personality: None,
        ..turn("hi")
    };
    assert_eq!(op, AppCommand::UserTurn(expected));
    assert_eq!(history, Some(AppCommand::AddToHistory { text: "hi".to_string() }));
    assert_eq!(text, "hi");
    widget.collaboration_modes_enabled = false;
    widget.config.service_tier = None;
    widget.config.fast_default_opt_out = Some(true);
    match widget.prepare_targeted_external_literal_user_message("hi".to_string()).unwrap().0 {
        AppCommand::UserTurn(turn) => {
            assert_eq!(turn.collaboration_mode, None);
            assert_eq!(turn.service_tier, Some(None));
        }
        other => panic!("expected a turn, got {other:?}"),
    }
}

#[test]
fn turns_for_other_threads_use_their_session() {
    let (mut widget, _rx) = widget();
    let mut state = input_state();
    state.active_collaboration_mask = Some(plan_mask());
    let (op, _, _) = widget
        .prepare_targeted_external_literal_user_message_for_thread(
            "hi".to_string(),
            &session("s"),
            Some(&state),
        )
        .unwrap();
    let effective = CollaborationMode {
        mode: ModeKind::Plan,
        settings: Settings {
            model: "s".to_string(),
            reasoning_effort: Some(ReasoningEffort::Low),
            developer_instructions: Some("plan first".to_string()),
        },
    };
    assert_eq!(
        op,
        AppCommand::UserTurn(UserTurn {
            cwd: "/thread".to_string(),
            approval_policy: ApprovalPolicy::Never,
            sandbox_policy: Some(policy(true)),
            permission_profile: None,
            model: "s".to_string(),
            effort: Some(ReasoningEffort::Low),
            service_tier: Some(Some(ServiceTier::Fast)),
            collaboration_mode: Some(effective),
            personality: None,
            approvals_reviewer: Some(ApprovalsReviewer::AutoReview),
            ..turn("hi")
        })
    );
    match widget
        .prepare_targeted_external_literal_user_message_for_thread(
            "hi".to_string(),
            &session("s"),
            None,
        )
        .unwrap()
        .0
    {
        AppCommand::UserTurn(turn) => assert_eq!(turn.collaboration_mode, None),
        other => panic!("expected a turn, got {other:?}"),
    }
    assert!(widget.effects.is_empty());
    assert!(widget
        .prepare_targeted_external_literal_user_message_for_thread(
            "hi".to_string(),
            &session("\n"),
            Some(&state),
        )
        .is_none());
    assert_eq!(
        widget.effects,
        vec![WidgetEffect::ErrorMessage {
            message: "Target thread model is unavailable. Wait for the thread to finish syncing before sending input.".to_string(),
        }]
    );
}

#[test]
fn cancelled_steers_leave_no_trace() {
    let (mut widget, _rx) = widget();
    widget.pending_steers.push_back(steer("a", QueuedInputAction::Plain));
    widget.record_pending_external_literal_steer("b".to_string());
    assert!(!widget.saw_plan_item_this_turn);
    assert_eq!(widget.pending_steers[1], steer("b", QueuedInputAction::LiteralUserTurn));
    widget.cancel_pending_external_literal_steer("a");
    assert_eq!(widget.pending_steers.len(), 2);
    widget.cancel_pending_external_literal_steer("b");
    assert_eq!(
        widget.pending_steers,
        VecDeque::from(vec![steer("a", QueuedInputAction::Plain)])
    );
    widget.cancel_pending_external_literal_steer("a");
    assert_eq!(widget.pending_steers.len(), 1);
    assert_eq!(widget.effects.len(), 2);

    let mut state = input_state();
    state.record_pending_external_literal_steer("c".to_string());
    state.cancel_pending_external_literal_steer("x");
    assert_eq!(state.pending_steers.len(), 1);
    state.cancel_pending_external_literal_steer("c");
    assert!(state.pending_steers.is_empty());
}

#[test]
fn rejected_steers_are_moved() {
    let mut state = input_state();
    state.pending_steers.push_back(steer("plain", QueuedInputAction::Plain));
    state.pending_steers.push_back(steer("literal", QueuedInputAction::LiteralUserTurn));
    state.pending_steers.push_back(steer("shell", QueuedInputAction::RunShell));
    state.queued_user_messages.push_back(literal("queued"));
    assert!(state.enqueue_rejected_steer());
    assert!(state.enqueue_rejected_steer());
    assert!(state.enqueue_rejected_steer());
    assert!(!state.enqueue_rejected_steer());
    assert_eq!(
        state.rejected_steers_queue,
        VecDeque::from(vec![UserMessage::from_text("plain".to_string())])
    );
    assert_eq!(
        state.queued_user_messages,
        VecDeque::from(vec![
            QueuedUserMessage::new(
                UserMessage::from_text("shell".to_string()),
                QueuedInputAction::RunShell
            ),
            literal("literal"),
            literal("queued"),
        ])
    );
}

#[test]
fn threads_are_busy_from_submission_to_completion() {
    let mut state = input_state();
    assert!(!state.is_user_turn_pending_or_running());
    state.mark_user_turn_pending_start();
    assert!(state.is_user_turn_pending_start());
    assert!(state.is_user_turn_pending_or_running());
    state.mark_user_turn_started();
    assert!(!state.is_user_turn_pending_start());
    assert!(state.is_user_turn_pending_or_running());
    assert!(state.agent_turn_running);
    state.mark_user_turn_completed();
    assert!(!state.is_user_turn_pending_or_running());
    assert!(!state.agent_turn_running);
}

fn new_thread_id() -> ThreadId {
    ThreadId::from_string(&fresh_epoch()).unwrap()
}

fn app() -> (App, UnboundedReceiver<AppEvent>) {
    let (tx, rx) = unbounded_channel();
    let app = App {
        primary_thread_id: Some(ThreadId { uuid: 1 }),
        external_btw_requests: HashMap::new(),
        btw_log: Vec::new(),
        app_event_tx: AppEventSender::new(tx),
    };
    (app, rx)
}

fn btw_state(id: &str, parent: ThreadId) -> ExternalBtwState {
    ExternalBtwState { request_id: id.to_string(), parent_thread_id: parent, answer: None }
}

fn fork_config(model: Option<&str>) -> ForkConfig {
    ForkConfig {
        model: model.map(|m| m.to_string()),
        cwd: "/fork".to_string(),
        approval_policy: ApprovalPolicy::Never,
        active_permission_profile: None,
        model_reasoning_effort: None,
        service_tier: None,
        personality: None,
    }
}

#[test]
fn hidden_notifications_capture_answer_and_finish_request() {
    let (mut app, mut rx) = app();
    let parent_thread_id = new_thread_id();
    let child_thread_id = new_thread_id();
    app.external_btw_requests
        .insert(child_thread_id.uuid, btw_state("req-btw", parent_thread_id));

    let item_completed =
        BtwNotification::ItemCompleted { agent_message: Some("current summary".to_string()) };
    assert!(app.handle_external_btw_notification(child_thread_id, &item_completed));
    assert_eq!(
        app.external_btw_requests
            .get(&child_thread_id.uuid)
            .and_then(|state| state.answer.as_deref()),
        Some("current summary")
    );

    let turn_completed = BtwNotification::TurnCompleted { status: TurnStatus::Completed };
    assert!(app.handle_external_btw_notification(child_thread_id, &turn_completed));
    assert!(!app.external_btw_requests.contains_key(&child_thread_id.uuid));
    assert_eq!(
        app.btw_log,
        vec![BtwLog::Completed {
            request_id: "req-btw".to_string(),
            parent_thread_id,
            thread_id: child_thread_id,
            answer: "current summary".to_string(),
        }]
    );
    assert_eq!(
        rx.try_recv(),
        Ok(AppEvent::CleanupExternalBtw { thread_id: child_thread_id })
    );
}

#[test]
fn unrelated_notifications_remain_visible() {
    let (mut app, _rx) = app();
    let thread_id = new_thread_id();
    let notification = BtwNotification::TurnCompleted { status: TurnStatus::Completed };
    assert!(!app.handle_external_btw_notification(thread_id, &notification));
}

#[test]
fn side_conversations_answer_with_the_last_message() {
    let (mut app, _rx) = app();
    let thread_id = ThreadId { uuid: 7 };
    app.external_btw_requests.insert(7, btw_state("r", ThreadId { uuid: 1 }));
    for text in [Some("first"), Some("second"), Some("  "), None] {
        let item =
            BtwNotification::ItemCompleted { agent_message: text.map(|t| t.to_string()) };
        assert!(app.handle_external_btw_notification(thread_id, &item));
    }
    assert!(app.handle_external_btw_notification(thread_id, &BtwNotification::Other));
    assert!(app.btw_log.is_empty());
    let done = BtwNotification::TurnCompleted { status: TurnStatus::Completed };
    assert!(app.handle_external_btw_notification(thread_id, &done));
    assert!(matches!(&app.btw_log[0], BtwLog::Completed { answer, .. } if answer == "second"));
    assert!(!app.handle_external_btw_notification(thread_id, &done));
    assert_eq!(app.btw_log.len(), 1);
}

#[test]
fn side_conversations_fail_with_a_reason() {
    for (notification, reason) in [
        (
            BtwNotification::TurnCompleted { status: TurnStatus::Completed },
            "completed_without_agent_message",
        ),
        (BtwNotification::TurnCompleted { status: TurnStatus::Failed }, "turn_failed"),
        (BtwNotification::TurnCompleted { status: TurnStatus::Interrupted }, "turn_interrupted"),
        (BtwNotification::TurnCompleted { status: TurnStatus::InProgress }, "turn_inprogress"),
        (BtwNotification::ThreadClosed, "thread_closed"),
    ] {
        let (mut app, mut rx) = app();
        let thread_id = ThreadId { uuid: 7 };
        app.external_btw_requests.insert(7, btw_state("r", ThreadId { uuid: 1 }));
        assert!(app.handle_external_btw_notification(thread_id, &notification));
        assert_eq!(
            app.btw_log,
            vec![BtwLog::Failed {
                request_id: "r".to_string(),
                parent_thread_id: Some(ThreadId { uuid: 1 }),
                thread_id: Some(thread_id),
                error: reason.to_string(),
            }]
        );
        assert_eq!(rx.try_recv(), Ok(AppEvent::CleanupExternalBtw { thread_id }));
        assert!(app.external_btw_requests.is_empty());
    }
}

#[test]
fn side_conversations_run_one_at_a_time() {
    let (mut app, mut rx) = app();
    let launch = app.start_external_btw("r1".to_string(), "why?".to_string()).unwrap();
    assert_eq!(launch.parent_thread_id, ThreadId { uuid: 1 });
    let fork = app.external_btw_forked(launch, Ok(ThreadId { uuid: 9 })).unwrap();
    let op = app
        .external_btw_prepared(&fork, Ok(()), &fork_config(Some(" ")), &"current".to_string())
        .unwrap();
    match op {
        AppCommand::UserTurn(turn) => {
            assert_eq!(turn.model, "current");
            assert_eq!(turn.cwd, "/fork");
            assert_eq!(turn.sandbox_policy, None);
            assert_eq!(turn.service_tier, Some(None));
            assert_eq!(
                turn.items,
                vec![UserInput::Text { text: "why?".to_string(), text_elements: Vec::new() }]
            );
        }
        other => panic!("expected a turn, got {other:?}"),
    }
    app.external_btw_submitted(fork, Ok(()));
    assert!(app.start_external_btw("r2".to_string(), "and?".to_string()).is_none());
    assert_eq!(
        app.btw_log,
        vec![
            BtwLog::Started {
                request_id: "r1".to_string(),
                parent_thread_id: ThreadId { uuid: 1 },
                thread_id: ThreadId { uuid: 9 },
            },
            BtwLog::Failed {
                request_id: "r2".to_string(),
                parent_thread_id: Some(ThreadId { uuid: 1 }),
                thread_id: None,
                error: "btw_request_already_active".to_string(),
            },
        ]
    );
    assert!(rx.try_recv().is_err());
}

#[test]
fn side_conversations_that_cannot_start_are_logged() {
    let (mut app, mut rx) = app();
    app.primary_thread_id = None;
    assert!(app.start_external_btw("r0".to_string(), "p".to_string()).is_none());
    app.primary_thread_id = Some(ThreadId { uuid: 1 });
    let launch = app.start_external_btw("r1".to_string(), "p".to_string()).unwrap();
    assert!(app.external_btw_forked(launch, Err("no fork".to_string())).is_none());
    let launch = app.start_external_btw("r2".to_string(), "p".to_string()).unwrap();
    let fork = app.external_btw_forked(launch, Ok(ThreadId { uuid: 2 })).unwrap();
    assert!(app
        .external_btw_prepared(
            &fork,
            Err("no items".to_string()),
            &fork_config(None),
            &"m".to_string()
        )
        .is_none());
    assert_eq!(
        rx.try_recv(),
        Ok(AppEvent::CleanupExternalBtw { thread_id: ThreadId { uuid: 2 } })
    );
    let launch = app.start_external_btw("r3".to_string(), "p".to_string()).unwrap();
    let fork = app.external_btw_forked(launch, Ok(ThreadId { uuid: 3 })).unwrap();
    app.external_btw_prepared(&fork, Ok(()), &fork_config(Some("f")), &"m".to_string())
        .unwrap();
    app.external_btw_submitted(fork, Err("no turn".to_string()));
    assert!(app.external_btw_requests.is_empty());
    assert_eq!(
        rx.try_recv(),
        Ok(AppEvent::CleanupExternalBtw { thread_id: ThreadId { uuid: 3 } })
    );
    let errors: Vec<&str> = app
        .btw_log
        .iter()
        .map(|entry| match entry {
            BtwLog::Failed { error, .. } => error.as_str(),
            other => panic!("expected a failure, got {other:?}"),
        })
        .collect();
    assert_eq!(
        errors,
        vec![
            "main_thread_unavailable",
            "thread_fork_failed: no fork",
            "thread_prepare_failed: no items",
            "turn_start_failed: no turn",
        ]
    );
}

#[test]
fn all_side_conversations_can_be_ended() {
    let (mut app, mut rx) = app();
    for id in [4, 5, 6] {
        app.external_btw_requests
            .insert(id, btw_state(&format!("r{id}"), ThreadId { uuid: 1 }));
    }
    app.fail_all_external_btw("session_replaced");
    assert!(app.external_btw_requests.is_empty());
    let mut cleaned: Vec<u128> = Vec::new();
    while let Ok(AppEvent::CleanupExternalBtw { thread_id }) = rx.try_recv() {
        cleaned.push(thread_id.uuid);
    }
    cleaned.sort();
    assert_eq!(cleaned, vec![4, 5, 6]);
    let mut failed: Vec<&str> = app
        .btw_log
        .iter()
        .map(|entry| match entry {
            BtwLog::Failed { request_id, error, .. } if error == "session_replaced" => {
                request_id.as_str()
            }
            other => panic!("expected a failure, got {other:?}"),
        })
        .collect();
    failed.sort();
    assert_eq!(failed, vec!["r4", "r5", "r6"]);
    assert!(!app.fail_external_btw(ThreadId { uuid: 4 }, "again"));
}
