//! Messages that come from outside the interface and are submitted as they are: no slash
//! commands, no shell escapes, no mentions.

use crate::app_command::{
    plain_input, plain_text_input, AppCommand, ApprovalPolicy, ApprovalsReviewer,
    CollaborationMode, CollaborationModeMask, CommandView, ModeKind, PermissionProfile,
    Personality, ReasoningEffort, SandboxPolicy, ServiceTier, Settings, TextElement, UserTurn,
    UserTurnView,
};
use crate::channel::Outbox;
use crate::text::{blank, is_blank, law_blank_text_says_nothing, says_something};
use crate::thread_input::ThreadInputState;
use crate::user_message::{
    cancelled, ends_with_literal, literal_queued, literal_steer, pop_literal_steer,
    push_literal_steer, queued_views, steer_views, PendingSteer, QueuedInputAction,
    QueuedUserMessage, QueuedView, SteerView, UserMessage,
};
use std::collections::VecDeque;
use vstd::prelude::*;

verus! {

/// What the widget shows or refreshes as a consequence.
#[derive(Debug, PartialEq, Eq)]
pub enum WidgetEffect {
    RefreshPendingInputPreview,
    ErrorMessage { message: String },
    RecordVisibleUserTurnForCopy,
    AddUserPromptToHistory { text: String },
}

/// The content of an effect.
#[verifier::ext_equal]
pub enum EffectView {
    RefreshPendingInputPreview,
    ErrorMessage { message: Seq<char> },
    RecordVisibleUserTurnForCopy,
    AddUserPromptToHistory { text: Seq<char> },
}

impl View for WidgetEffect {
    type V = EffectView;

    open spec fn view(&self) -> EffectView {
        match self {
            WidgetEffect::RefreshPendingInputPreview => EffectView::RefreshPendingInputPreview,
            WidgetEffect::ErrorMessage { message } => EffectView::ErrorMessage {
                message: message@,
            },
            WidgetEffect::RecordVisibleUserTurnForCopy => EffectView::RecordVisibleUserTurnForCopy,
            WidgetEffect::AddUserPromptToHistory { text } => EffectView::AddUserPromptToHistory {
                text: text@,
            },
        }
    }
}

/// The contents of effects.
pub open spec fn effect_views(effects: Seq<WidgetEffect>) -> Seq<EffectView> {
    effects.map_values(|effect: WidgetEffect| effect@)
}

/// The contents of commands.
pub open spec fn command_views(commands: Seq<AppCommand>) -> Seq<CommandView> {
    commands.map_values(|command: AppCommand| command@)
}

/// A message of the user as it was last shown.
#[derive(Debug, PartialEq, Eq)]
pub struct RenderedUserMessage {
    pub message: String,
    pub text_elements: Vec<TextElement>,
    pub local_images: Vec<String>,
    pub remote_image_urls: Vec<String>,
}

/// The content of a message as it was last shown.
#[verifier::ext_equal]
pub struct RenderedView {
    pub message: Seq<char>,
    pub text_elements: Seq<TextElement>,
    pub local_images: Seq<String>,
    pub remote_image_urls: Seq<String>,
}

impl View for RenderedUserMessage {
    type V = RenderedView;

    open spec fn view(&self) -> RenderedView {
        RenderedView {
            message: self.message@,
            text_elements: self.text_elements@,
            local_images: self.local_images@,
            remote_image_urls: self.remote_image_urls@,
        }
    }
}

/// A text that was shown as it is.
pub open spec fn rendered_text(text: Seq<char>) -> RenderedView {
    RenderedView {
        message: text,
        text_elements: Seq::empty(),
        local_images: Seq::empty(),
        remote_image_urls: Seq::empty(),
    }
}

/// The configuration that a turn takes its context from.
pub struct WidgetConfig {
    pub cwd: String,
    pub approval_policy: ApprovalPolicy,
    pub sandbox_policy: SandboxPolicy,
    pub permission_profile: PermissionProfile,
    pub personality: Option<Personality>,
    pub personality_enabled: bool,
    pub model_supports_personality: bool,
    pub service_tier: Option<ServiceTier>,
    pub fast_default_opt_out: Option<bool>,
}

/// The chat widget, as far as messages from outside are concerned.
pub struct ChatWidget {
    pub session_configured: bool,
    pub user_turn_pending_start: bool,
    pub task_running: bool,
    pub saw_plan_item_this_turn: bool,
    pub needs_final_message_separator: bool,
    pub collaboration_modes_enabled: bool,
    pub effective_collaboration_mode: CollaborationMode,
    pub active_collaboration_mask: Option<CollaborationModeMask>,
    pub config: WidgetConfig,
    pub queued_user_messages: VecDeque<QueuedUserMessage>,
    pub pending_steers: VecDeque<PendingSteer>,
    pub last_rendered_user_message_event: Option<RenderedUserMessage>,
    pub effects: Vec<WidgetEffect>,
    pub codex_op_tx: Outbox<AppCommand>,
}

/// The content of the widget.
#[verifier::ext_equal]
pub struct WidgetView {
    pub session_configured: bool,
    pub user_turn_pending_start: bool,
    pub task_running: bool,
    pub saw_plan_item_this_turn: bool,
    pub needs_final_message_separator: bool,
    pub collaboration_modes_enabled: bool,
    pub effective_collaboration_mode: CollaborationMode,
    pub active_collaboration_mask: Option<CollaborationModeMask>,
    pub config: WidgetConfig,
    pub queued_user_messages: Seq<QueuedView>,
    pub pending_steers: Seq<SteerView>,
    pub last_rendered: Option<RenderedView>,
    pub effects: Seq<EffectView>,
    /// The commands offered to the agent.
    pub submitted: Seq<CommandView>,
    /// Those of them that the agent's channel took.
    pub delivered: Seq<CommandView>,
}

impl View for ChatWidget {
    type V = WidgetView;

    open spec fn view(&self) -> WidgetView {
        WidgetView {
            session_configured: self.session_configured,
            user_turn_pending_start: self.user_turn_pending_start,
            task_running: self.task_running,
            saw_plan_item_this_turn: self.saw_plan_item_this_turn,
            needs_final_message_separator: self.needs_final_message_separator,
            collaboration_modes_enabled: self.collaboration_modes_enabled,
            effective_collaboration_mode: self.effective_collaboration_mode,
            active_collaboration_mask: self.active_collaboration_mask,
            config: self.config,
            queued_user_messages: queued_views(self.queued_user_messages@),
            pending_steers: steer_views(self.pending_steers@),
            last_rendered: match self.last_rendered_user_message_event {
                Some(rendered) => Some(rendered@),
                None => None,
            },
            effects: effect_views(self.effects@),
            submitted: command_views(self.codex_op_tx.offered()),
            delivered: command_views(self.codex_op_tx.delivered()),
        }
    }
}

/// The context that another thread runs in.
pub struct ThreadSessionState {
    pub model: String,
    pub reasoning_effort: Option<ReasoningEffort>,
    pub cwd: String,
    pub approval_policy: ApprovalPolicy,
    pub sandbox_policy: SandboxPolicy,
    pub permission_profile: Option<PermissionProfile>,
    pub service_tier: Option<ServiceTier>,
    pub approvals_reviewer: ApprovalsReviewer,
}

impl WidgetView {
    /// Nothing can be submitted now: there is no session yet, or a turn runs or is about to.
    pub open spec fn must_wait(self) -> bool {
        !self.session_configured || self.user_turn_pending_start || self.task_running
    }

    /// The widget after an effect was noted.
    pub open spec fn with_effect(self, effect: EffectView) -> WidgetView {
        WidgetView { effects: self.effects.push(effect), ..self }
    }

    /// The widget after a text was queued last.
    pub open spec fn queued_last(self, text: Seq<char>) -> WidgetView {
        WidgetView {
            queued_user_messages: self.queued_user_messages.push(literal_queued(text)),
            ..self
        }.with_effect(EffectView::RefreshPendingInputPreview)
    }

    /// The widget after a text was queued first.
    pub open spec fn queued_first(self, text: Seq<char>) -> WidgetView {
        WidgetView {
            queued_user_messages: seq![literal_queued(text)] + self.queued_user_messages,
            ..self
        }.with_effect(EffectView::RefreshPendingInputPreview)
    }

    /// The turn that a text becomes in the current thread.
    pub open spec fn turn(self, text: Seq<char>) -> UserTurnView {
        let mode = self.effective_collaboration_mode;
        let config = self.config;
        UserTurnView {
            items: plain_input(text),
            cwd: config.cwd,
            approval_policy: config.approval_policy,
            sandbox_policy: Some(config.sandbox_policy),
            permission_profile: if config.sandbox_policy.external {
                None
            } else {
                Some(config.permission_profile)
            },
            model: mode.settings.model,
            effort: mode.settings.reasoning_effort,
            summary: None,
            service_tier: match config.service_tier {
                Some(tier) => Some(Some(tier)),
                None => if config.fast_default_opt_out == Some(true) {
                    Some(None)
                } else {
                    None
                },
            },
            final_output_json_schema: None,
            collaboration_mode: if self.collaboration_modes_enabled
                && self.active_collaboration_mask is Some {
                Some(mode)
            } else {
                None
            },
            personality: if config.personality_enabled && config.model_supports_personality {
                config.personality
            } else {
                None
            },
            approvals_reviewer: None,
        }
    }

    /// What is to be submitted for a text now: the turn, and the entry in the history. Nothing
    /// for an empty text, for one that has to wait where waiting is allowed, and where no model
    /// is known.
    pub open spec fn prepared(self, text: Seq<char>, queue_if_unconfigured: bool) -> Option<
        UserTurnView,
    > {
        if text.len() == 0 || (queue_if_unconfigured && self.must_wait()) || blank(
            self.effective_collaboration_mode.settings.model@,
        ) {
            None
        } else {
            Some(self.turn(text))
        }
    }

    /// The widget after a text was prepared.
    pub open spec fn after_prepare(self, text: Seq<char>, queue_if_unconfigured: bool) -> WidgetView {
        if text.len() == 0 {
            self
        } else if queue_if_unconfigured && self.must_wait() {
            self.queued_last(text)
        } else if blank(self.effective_collaboration_mode.settings.model@) {
            self.with_effect(
                EffectView::ErrorMessage {
                    message: "Thread model is unavailable. Wait for the thread to finish syncing or choose a model before sending input."@,
                },
            )
        } else {
            self
        }
    }

    /// The widget after a submitted text was shown.
    pub open spec fn shown(self, text: Seq<char>) -> WidgetView {
        WidgetView {
            last_rendered: Some(rendered_text(text)),
            needs_final_message_separator: false,
            ..self
        }.with_effect(EffectView::RecordVisibleUserTurnForCopy).with_effect(
            EffectView::AddUserPromptToHistory { text },
        )
    }

    /// The widget after a command was offered to the agent, which took it or not.
    pub open spec fn offered(self, command: CommandView, taken: bool) -> WidgetView {
        WidgetView {
            submitted: self.submitted.push(command),
            delivered: if taken {
                self.delivered.push(command)
            } else {
                self.delivered
            },
            ..self
        }
    }

    /// Whether the agent took more than `n` commands since the widget was as `before`.
    pub open spec fn took_more(self, before: WidgetView, n: nat) -> bool {
        self.delivered.len() > before.delivered.len() + n
    }

    /// The widget after a turn that the agent took: the turn is pending, the text is offered to the
    /// history, which the agent takes or not, and it is shown.
    pub open spec fn turn_taken(
        self,
        history: Option<CommandView>,
        text: Seq<char>,
        noted: bool,
    ) -> WidgetView {
        let pending = WidgetView { user_turn_pending_start: true, ..self };
        match history {
            Some(history) => pending.offered(history, noted).shown(text),
            None => pending.shown(text),
        }
    }

    /// The widget after a turn was offered to the agent. Where the agent does not take it, nothing
    /// else happens.
    pub open spec fn turn_submitted(
        self,
        turn: UserTurnView,
        text: Seq<char>,
        taken: bool,
        noted: bool,
    ) -> WidgetView {
        let offered = self.offered(CommandView::UserTurn(turn), taken);
        if taken {
            offered.turn_taken(Some(CommandView::AddToHistory { text }), text, noted)
        } else {
            offered
        }
    }

    /// The widget after a text was prepared and, if anything was to be submitted for it, offered to
    /// the agent, which took the turn and the entry in the history, or did not.
    pub open spec fn after_submit(
        self,
        text: Seq<char>,
        queue_if_unconfigured: bool,
        taken: bool,
        noted: bool,
    ) -> WidgetView {
        let after = self.after_prepare(text, queue_if_unconfigured);
        match self.prepared(text, queue_if_unconfigured) {
            Some(turn) => after.turn_submitted(turn, text, taken, noted),
            None => after,
        }
    }

    /// The widget after a queued text had its turn.
    pub open spec fn after_dequeue(self, text: Seq<char>, taken: bool, noted: bool) -> WidgetView {
        if text.len() == 0 {
            self
        } else if self.must_wait() {
            self.queued_first(text)
        } else {
            self.after_submit(text, false, taken, noted)
        }
    }
}

/// The mode that a text for another thread runs in: the thread's own mode under its mask, or the
/// default mode, with model and effort of the thread's session.
pub open spec fn targeted_mode(
    session: ThreadSessionState,
    input_state: Option<ThreadInputState>,
) -> CollaborationMode {
    let base = match input_state {
        Some(state) => state.current_collaboration_mode,
        None => CollaborationMode {
            mode: ModeKind::Default,
            settings: Settings {
                model: session.model,
                reasoning_effort: session.reasoning_effort,
                developer_instructions: None,
            },
        },
    };
    let masked = match input_state {
        Some(state) => match state.active_collaboration_mask {
            Some(mask) => base.masked(mask),
            None => base,
        },
        None => base,
    };
    masked.updated(Some(session.model), Some(session.reasoning_effort), None)
}

/// The turn that a text becomes in another thread.
pub open spec fn targeted_turn(
    text: Seq<char>,
    session: ThreadSessionState,
    input_state: Option<ThreadInputState>,
    collaboration_modes_enabled: bool,
) -> UserTurnView {
    let mode = targeted_mode(session, input_state);
    UserTurnView {
        items: plain_input(text),
        cwd: session.cwd,
        approval_policy: session.approval_policy,
        sandbox_policy: Some(session.sandbox_policy),
        permission_profile: if session.sandbox_policy.external {
            None
        } else {
            session.permission_profile
        },
        model: mode.settings.model,
        effort: mode.settings.reasoning_effort,
        summary: None,
        service_tier: Some(session.service_tier),
        final_output_json_schema: None,
        collaboration_mode: if collaboration_modes_enabled && (input_state matches Some(state)
            && state.active_collaboration_mask is Some) {
            Some(mode)
        } else {
            None
        },
        personality: None,
        approvals_reviewer: Some(session.approvals_reviewer),
    }
}

/// What a prepared text comes with, in the form in which it is handed on.
pub open spec fn prepared_parts(
    r: Option<(AppCommand, Option<AppCommand>, String)>,
    turn: UserTurnView,
    text: Seq<char>,
) -> bool {
    &&& r matches Some((op, history_op, kept))
    &&& op@ == CommandView::UserTurn(turn)
    &&& history_op matches Some(history)
    &&& history@ == (CommandView::AddToHistory { text })
    &&& kept@ == text
}

impl ChatWidget {
    fn note(&mut self, effect: WidgetEffect)
        ensures
            final(self)@ == old(self)@.with_effect(effect@),
    {
        self.effects.push(effect);
        assert(effect_views(self.effects@) =~= effect_views(old(self).effects@).push(effect@));
    }

    /// Offers a command to the agent and gives whether the agent took it, which is up to the agent.
    pub fn submit_op(&mut self, op: AppCommand) -> (taken: bool)
        ensures
            final(self)@ == old(self)@.offered(op@, taken),
    {
        let taken = match self.codex_op_tx.offer(op) {
            Ok(()) => true,
            Err(_) => false,
        };
        assert(command_views(self.codex_op_tx.offered()) =~= command_views(
            old(self).codex_op_tx.offered(),
        ).push(op@));
        assert(taken ==> command_views(self.codex_op_tx.delivered()) =~= command_views(
            old(self).codex_op_tx.delivered(),
        ).push(op@));
        assert(self@ =~= old(self)@.offered(op@, taken));
        taken
    }

    pub fn is_session_configured(&self) -> (r: bool)
        ensures
            r == self.session_configured,
    {
        self.session_configured
    }

    pub fn is_user_turn_pending_or_running(&self) -> (r: bool)
        ensures
            r == (self.user_turn_pending_start || self.task_running),
    {
        self.user_turn_pending_start || self.task_running
    }

    pub fn is_user_turn_pending_start(&self) -> (r: bool)
        ensures
            r == self.user_turn_pending_start,
    {
        self.user_turn_pending_start
    }

    pub fn mark_user_turn_pending_start(&mut self)
        ensures
            final(self)@ == (WidgetView { user_turn_pending_start: true, ..old(self)@ }),
    {
        self.user_turn_pending_start = true;
    }

    /// Submits a text from outside as it is, or queues it where it has to wait.
    pub fn submit_external_literal_user_message(&mut self, text: String)
        ensures
            final(self)@ == old(self)@.after_submit(
                text@,
                true,
                final(self)@.took_more(old(self)@, 0),
                final(self)@.took_more(old(self)@, 1),
            ),
    {
        match self.prepare_external_literal_user_message(text) {
            Some((op, history_op, submitted_text)) => {
                let ghost turn = old(self)@.turn(text@);
                self.submit_prepared(op, history_op, submitted_text, Ghost(turn));
            },
            None => {},
        }
    }

    /// Offers a prepared turn to the agent and goes on by whether it was taken.
    fn submit_prepared(
        &mut self,
        op: AppCommand,
        history_op: Option<AppCommand>,
        text: String,
        Ghost(turn): Ghost<UserTurnView>,
    )
        requires
            prepared_parts(Some((op, history_op, text)), turn, text@),
        ensures
            final(self)@ == old(self)@.turn_submitted(
                turn,
                text@,
                final(self)@.took_more(old(self)@, 0),
                final(self)@.took_more(old(self)@, 1),
            ),
    {
        let taken = self.submit_op(op);
        self.complete_submission(taken, history_op, text);
    }

    /// What follows once it is known whether the agent took the turn: nothing if it did not, else
    /// the turn is pending, the text enters the history, and it is shown.
    pub fn complete_submission(
        &mut self,
        taken: bool,
        history_op: Option<AppCommand>,
        text: String,
    )
        ensures
            final(self)@ == (if taken {
                old(self)@.turn_taken(
                    match history_op {
                        Some(history) => Some(history@),
                        None => None,
                    },
                    text@,
                    final(self)@.took_more(old(self)@, 0),
                )
            } else {
                old(self)@
            }),
    {
        if !taken {
            return;
        }
        self.mark_user_turn_pending_start();
        if let Some(history_op) = history_op {
            let _noted = self.submit_op(history_op);
        }
        self.render_external_literal_user_message(text);
    }

    /// Submits a text that was queued. It goes back to the front where it has to wait longer.
    pub fn submit_queued_external_literal_user_message(&mut self, queued_message: QueuedUserMessage)
        ensures
            final(self)@ == old(self)@.after_dequeue(
                queued_message.user_message.text@,
                final(self)@.took_more(old(self)@, 0),
                final(self)@.took_more(old(self)@, 1),
            ),
    {
        let ghost given = queued_message.user_message.text@;
        let text = queued_message.into_user_message().text;
        if text.as_str().is_empty() {
            return;
        }
        if !self.is_session_configured() || self.is_user_turn_pending_or_running() {
            self.queued_user_messages.push_front(
                QueuedUserMessage::new(
                    UserMessage::from_text(text),
                    QueuedInputAction::LiteralUserTurn,
                ),
            );
            assert(queued_views(self.queued_user_messages@) =~= seq![literal_queued(given)]
                + old(self)@.queued_user_messages);
            self.note(WidgetEffect::RefreshPendingInputPreview);
            return;
        }
        match self.prepare_external_literal_user_message_with_queueing(text, false) {
            Some((op, history_op, submitted_text)) => {
                let ghost turn = old(self)@.turn(given);
                self.submit_prepared(op, history_op, submitted_text, Ghost(turn));
            },
            None => {},
        }
    }

    /// Queues a text from outside behind those that wait.
    pub fn queue_external_literal_user_message(&mut self, text: String)
        ensures
            final(self)@ == old(self)@.queued_last(text@),
    {
        let ghost before = self@;
        let ghost given = text@;
        self.queued_user_messages.push_back(
            QueuedUserMessage::new(
                UserMessage::from_text(text),
                QueuedInputAction::LiteralUserTurn,
            ),
        );
        assert(queued_views(self.queued_user_messages@) =~= before.queued_user_messages.push(
            literal_queued(given),
        ));
        self.note(WidgetEffect::RefreshPendingInputPreview);
    }

    /// Prepares a text for the current thread, or queues it where it has to wait.
    pub fn prepare_external_literal_user_message(&mut self, text: String) -> (r: Option<
        (AppCommand, Option<AppCommand>, String),
    >)
        ensures
            final(self)@ == old(self)@.after_prepare(text@, true),
            r is Some <==> old(self)@.prepared(text@, true) is Some,
            r is Some ==> prepared_parts(r, old(self)@.turn(text@), text@),
    {
        self.prepare_external_literal_user_message_with_queueing(text, true)
    }

    /// Prepares a text for the current thread, whether or not it would have to wait.
    pub fn prepare_targeted_external_literal_user_message(&mut self, text: String) -> (r: Option<
        (AppCommand, Option<AppCommand>, String),
    >)
        ensures
            final(self)@ == old(self)@.after_prepare(text@, false),
            r is Some <==> old(self)@.prepared(text@, false) is Some,
            r is Some ==> prepared_parts(r, old(self)@.turn(text@), text@),
    {
        self.prepare_external_literal_user_message_with_queueing(text, false)
    }

    /// Prepares a text for another thread, in the context of that thread.
    pub fn prepare_targeted_external_literal_user_message_for_thread(
        &mut self,
        text: String,
        session: &ThreadSessionState,
        input_state: Option<&ThreadInputState>,
    ) -> (r: Option<(AppCommand, Option<AppCommand>, String)>)
        ensures
            final(self)@ == (if text@.len() > 0 && blank(session.model@) {
                old(self)@.with_effect(
                    EffectView::ErrorMessage {
                        message: "Target thread model is unavailable. Wait for the thread to finish syncing before sending input."@,
                    },
                )
            } else {
                old(self)@
            }),
            r is Some <==> text@.len() > 0 && !blank(session.model@),
            r is Some ==> prepared_parts(
                r,
                targeted_turn(
                    text@,
                    *session,
                    match input_state {
                        Some(state) => Some(*state),
                        None => None,
                    },
                    old(self).collaboration_modes_enabled,
                ),
                text@,
            ),
    {
        if text.as_str().is_empty() {
            return None;
        }
        let ghost state = match input_state {
            Some(state) => Some(*state),
            None => None,
        };
        let items = plain_text_input(&text);
        let base_mode = match input_state {
            Some(state) => state.current_collaboration_mode.clone(),
            None => CollaborationMode {
                mode: ModeKind::Default,
                settings: Settings {
                    model: session.model.clone(),
                    reasoning_effort: session.reasoning_effort,
                    developer_instructions: None,
                },
            },
        };
        let masked_mode = match input_state {
            Some(state) => match &state.active_collaboration_mask {
                Some(mask) => base_mode.apply_mask(mask),
                None => base_mode,
            },
            None => base_mode,
        };
        let effective_mode = masked_mode.with_updates(
            Some(session.model.clone()),
            Some(session.reasoning_effort),
            None,
        );
        assert(effective_mode == targeted_mode(*session, state));
        if is_blank(effective_mode.settings.model.as_str()) {
            self.note(
                WidgetEffect::ErrorMessage {
                    message:
                        "Target thread model is unavailable. Wait for the thread to finish syncing before sending input.".to_string(),
                },
            );
            return None;
        }
        let masked = match input_state {
            Some(state) => state.active_collaboration_mask.is_some(),
            None => false,
        };
        let collaboration_mode = if self.collaboration_modes_enabled && masked {
            Some(effective_mode.clone())
        } else {
            None
        };
        let permission_profile = if session.sandbox_policy.external {
            None
        } else {
            match &session.permission_profile {
                Some(profile) => Some(profile.clone()),
                None => None,
            }
        };
        let turn = UserTurn {
            items,
            cwd: session.cwd.clone(),
            approval_policy: session.approval_policy,
            sandbox_policy: Some(session.sandbox_policy.clone()),
            permission_profile,
            model: effective_mode.settings.model.clone(),
            effort: effective_mode.settings.reasoning_effort,
            summary: None,
            service_tier: Some(session.service_tier),
            final_output_json_schema: None,
            collaboration_mode,
            personality: None,
            approvals_reviewer: Some(session.approvals_reviewer),
        };
        assert(turn@ =~= targeted_turn(text@, *session, state, self.collaboration_modes_enabled));
        let history_op = Some(AppCommand::AddToHistory { text: text.clone() });
        Some((AppCommand::UserTurn(turn), history_op, text))
    }

    /// Notes a text that was sent to steer the running turn as it is.
    pub fn record_pending_external_literal_steer(&mut self, text: String)
        ensures
            final(self)@ == (WidgetView {
                pending_steers: old(self)@.pending_steers.push(literal_steer(text@)),
                saw_plan_item_this_turn: false,
                ..old(self)@
            }).with_effect(EffectView::RefreshPendingInputPreview),
    {
        push_literal_steer(&mut self.pending_steers, text);
        self.saw_plan_item_this_turn = false;
        self.note(WidgetEffect::RefreshPendingInputPreview);
    }

    /// Calls back a text that was just sent to steer the running turn.
    pub fn cancel_pending_external_literal_steer(&mut self, text: &str)
        ensures
            final(self)@ == (if ends_with_literal(old(self)@.pending_steers, text@) {
                (WidgetView {
                    pending_steers: cancelled(old(self)@.pending_steers, text@),
                    ..old(self)@
                }).with_effect(EffectView::RefreshPendingInputPreview)
            } else {
                old(self)@
            }),
    {
        if pop_literal_steer(&mut self.pending_steers, text) {
            self.note(WidgetEffect::RefreshPendingInputPreview);
        }
    }

    /// Prepares a text for the current thread. Where `queue_if_unconfigured` is set, a text that
    /// has to wait is queued instead.
    pub fn prepare_external_literal_user_message_with_queueing(
        &mut self,
        text: String,
        queue_if_unconfigured: bool,
    ) -> (r: Option<(AppCommand, Option<AppCommand>, String)>)
        ensures
            final(self)@ == old(self)@.after_prepare(text@, queue_if_unconfigured),
            r is Some <==> old(self)@.prepared(text@, queue_if_unconfigured) is Some,
            r is Some ==> prepared_parts(r, old(self)@.turn(text@), text@),
    {
        if text.as_str().is_empty() {
            return None;
        }
        if queue_if_unconfigured && (!self.is_session_configured()
            || self.is_user_turn_pending_or_running()) {
            self.queue_external_literal_user_message(text);
            return None;
        }
        let items = plain_text_input(&text);
        let effective_mode = self.effective_collaboration_mode.clone();
        if is_blank(effective_mode.settings.model.as_str()) {
            self.note(
                WidgetEffect::ErrorMessage {
                    message:
                        "Thread model is unavailable. Wait for the thread to finish syncing or choose a model before sending input.".to_string(),
                },
            );
            return None;
        }
        let collaboration_mode = if self.collaboration_modes_enabled
            && self.active_collaboration_mask.is_some() {
            Some(effective_mode.clone())
        } else {
            None
        };
        let personality = if self.config.personality_enabled
            && self.config.model_supports_personality {
            self.config.personality
        } else {
            None
        };
        let service_tier = match self.config.service_tier {
            Some(service_tier) => Some(Some(service_tier)),
            None => match self.config.fast_default_opt_out {
                Some(true) => Some(None),
                _ => None,
            },
        };
        let permission_profile = if self.config.sandbox_policy.external {
            None
        } else {
            Some(self.config.permission_profile.clone())
        };
        let turn = UserTurn {
            items,
            cwd: self.config.cwd.clone(),
            approval_policy: self.config.approval_policy,
            sandbox_policy: Some(self.config.sandbox_policy.clone()),
            permission_profile,
            model: effective_mode.settings.model.clone(),
            effort: effective_mode.settings.reasoning_effort,
            summary: None,
            service_tier,
            final_output_json_schema: None,
            collaboration_mode,
            personality,
            approvals_reviewer: None,
        };
        assert(turn@ =~= self@.turn(text@));
        let history_op = Some(AppCommand::AddToHistory { text: text.clone() });
        Some((AppCommand::UserTurn(turn), history_op, text))
    }

    /// Shows a text that was submitted.
    pub fn render_external_literal_user_message(&mut self, text: String)
        ensures
            final(self)@ == old(self)@.shown(text@),
    {
        self.last_rendered_user_message_event = Some(
            RenderedUserMessage {
                message: text.clone(),
                text_elements: Vec::new(),
                local_images: Vec::new(),
                remote_image_urls: Vec::new(),
            },
        );
        self.note(WidgetEffect::RecordVisibleUserTurnForCopy);
        self.note(WidgetEffect::AddUserPromptToHistory { text });
        self.needs_final_message_separator = false;
        assert(self@ =~= old(self)@.shown(text@));
    }
}

/// A text from outside is never dropped silently: it is offered to the agent, or it waits as the
/// last in the queue, or an error is shown.
pub proof fn law_text_is_not_lost(widget: WidgetView, text: Seq<char>, taken: bool, noted: bool)
    requires
        text.len() > 0,
    ensures
        ({
            let after = widget.after_submit(text, true, taken, noted);
            ||| after.queued_user_messages == widget.queued_user_messages.push(
                literal_queued(text),
            )
            ||| after.submitted.contains(CommandView::UserTurn(widget.turn(text)))
            ||| after.effects.len() > widget.effects.len() && after.effects.last() is ErrorMessage
        }),
{
    let after = widget.after_submit(text, true, taken, noted);
    if widget.prepared(text, true) is Some {
        let n = widget.submitted.len() as int;
        assert(after.submitted[n] == CommandView::UserTurn(widget.turn(text)));
    }
}

/// While a turn is pending or runs, nothing more is submitted: neither a new text nor one that
/// was queued.
pub proof fn law_one_turn_at_a_time(widget: WidgetView, text: Seq<char>, taken: bool, noted: bool)
    requires
        widget.must_wait(),
    ensures
        widget.after_submit(text, true, taken, noted).submitted == widget.submitted,
        widget.after_submit(text, true, taken, noted).delivered == widget.delivered,
        widget.after_dequeue(text, taken, noted).submitted == widget.submitted,
        widget.after_dequeue(text, taken, noted).delivered == widget.delivered,
{
}

/// A turn is pending and its text is shown exactly if the agent took it. Once it was taken, the
/// widget has to wait for it.
pub proof fn law_taken_turn_is_pending(
    widget: WidgetView,
    text: Seq<char>,
    taken: bool,
    noted: bool,
)
    requires
        widget.prepared(text, true) is Some,
    ensures
        ({
            let after = widget.after_submit(text, true, taken, noted);
            &&& taken <==> after.took_more(widget, 0)
            &&& taken <==> after.user_turn_pending_start
            &&& taken <==> after.must_wait()
            &&& taken ==> after.delivered[widget.delivered.len() as int] == CommandView::UserTurn(
                widget.turn(text),
            )
            &&& taken ==> after.last_rendered == Some(rendered_text(text))
            &&& !taken ==> after == (WidgetView {
                submitted: widget.submitted.push(CommandView::UserTurn(widget.turn(text))),
                ..widget
            })
        }),
{
}

/// A queued text that has to wait longer goes back to where it was taken from.
pub proof fn law_requeue_keeps_order(
    widget: WidgetView,
    text: Seq<char>,
    taken: bool,
    noted: bool,
)
    requires
        text.len() > 0,
        widget.must_wait(),
    ensures
        widget.after_dequeue(text, taken, noted).queued_user_messages == seq![literal_queued(text)]
            + widget.queued_user_messages,
{
}

/// The widget after several texts from outside, of which none could be submitted at once.
pub open spec fn after_waiting_texts(widget: WidgetView, texts: Seq<Seq<char>>) -> WidgetView
    decreases texts.len(),
{
    if texts.len() == 0 {
        widget
    } else {
        after_waiting_texts(widget, texts.drop_last()).after_submit(
            texts.last(),
            true,
            false,
            false,
        )
    }
}

/// Texts from outside that come in while the widget has to wait stand in the queue in the order in
/// which they came, behind those that waited before, and nothing is submitted for them.
pub proof fn law_waiting_texts_keep_their_order(widget: WidgetView, texts: Seq<Seq<char>>)
    requires
        widget.must_wait(),
        forall|i: int| 0 <= i < texts.len() ==> (#[trigger] texts[i]).len() > 0,
    ensures
        after_waiting_texts(widget, texts).queued_user_messages == widget.queued_user_messages
            + texts.map_values(|text: Seq<char>| literal_queued(text)),
        after_waiting_texts(widget, texts).submitted == widget.submitted,
        after_waiting_texts(widget, texts).must_wait(),
    decreases texts.len(),
{
    let literal = |text: Seq<char>| literal_queued(text);
    if texts.len() > 0 {
        let rest = texts.drop_last();
        assert forall|i: int| 0 <= i < rest.len() implies (#[trigger] rest[i]).len() > 0 by {
            assert(rest[i] == texts[i]);
        }
        law_waiting_texts_keep_their_order(widget, rest);
        assert(texts.last() == texts[texts.len() - 1]);
        assert(texts.map_values(literal) =~= rest.map_values(literal).push(
            literal_queued(texts.last()),
        ));
    }
    assert(after_waiting_texts(widget, texts).queued_user_messages
        =~= widget.queued_user_messages + texts.map_values(literal));
}

/// The turn that a text becomes in the current thread holds the text and carries the widget's own
/// context: directory, approval policy and sandbox are those of the configuration, model and effort
/// those of the effective mode. The permission profile goes along unless the sandbox is external, the
/// mode where modes are on and a mask is active, the personality where both the feature and the model
/// allow it, and the service tier where one is configured; a turned down default tier is reset.
pub proof fn law_turn_carries_the_widgets_context(widget: WidgetView, text: Seq<char>)
    ensures
        ({
            let turn = widget.turn(text);
            &&& turn.items.len() == 1
            &&& turn.items[0]->text == text
            &&& turn.items[0]->text_elements.len() == 0
            &&& turn.cwd == widget.config.cwd
            &&& turn.approval_policy == widget.config.approval_policy
            &&& turn.sandbox_policy == Some(widget.config.sandbox_policy)
            &&& turn.model == widget.effective_collaboration_mode.settings.model
            &&& turn.effort == widget.effective_collaboration_mode.settings.reasoning_effort
            &&& turn.summary is None
            &&& turn.final_output_json_schema is None
            &&& turn.approvals_reviewer is None
        }),
        widget.config.sandbox_policy.external <==> widget.turn(text).permission_profile is None,
        !widget.config.sandbox_policy.external ==> widget.turn(text).permission_profile == Some(
            widget.config.permission_profile,
        ),
        widget.config.service_tier is Some ==> widget.turn(text).service_tier == Some(
            widget.config.service_tier,
        ),
        widget.config.service_tier is None && widget.config.fast_default_opt_out == Some(true)
            ==> widget.turn(text).service_tier == Some(None::<ServiceTier>),
        widget.config.service_tier is None && widget.config.fast_default_opt_out != Some(true)
            ==> widget.turn(text).service_tier is None,
        widget.collaboration_modes_enabled && widget.active_collaboration_mask is Some
            ==> widget.turn(text).collaboration_mode == Some(widget.effective_collaboration_mode),
        !widget.collaboration_modes_enabled || widget.active_collaboration_mask is None
            ==> widget.turn(text).collaboration_mode is None,
        widget.config.personality_enabled && widget.config.model_supports_personality
            ==> widget.turn(text).personality == widget.config.personality,
        !widget.config.personality_enabled || !widget.config.model_supports_personality
            ==> widget.turn(text).personality is None,
{
}

/// Whether a widget is as it was but for what a text from outside can touch.
pub open spec fn keeps_the_rest(before: WidgetView, after: WidgetView) -> bool {
    &&& after.session_configured == before.session_configured
    &&& after.task_running == before.task_running
    &&& after.saw_plan_item_this_turn == before.saw_plan_item_this_turn
    &&& after.collaboration_modes_enabled == before.collaboration_modes_enabled
    &&& after.effective_collaboration_mode == before.effective_collaboration_mode
    &&& after.active_collaboration_mask == before.active_collaboration_mask
    &&& after.config == before.config
    &&& after.pending_steers == before.pending_steers
}

/// Whether nothing was submitted or shown.
pub open spec fn submits_nothing(before: WidgetView, after: WidgetView) -> bool {
    &&& after.submitted == before.submitted
    &&& after.delivered == before.delivered
    &&& after.user_turn_pending_start == before.user_turn_pending_start
    &&& after.needs_final_message_separator == before.needs_final_message_separator
    &&& after.last_rendered == before.last_rendered
}

/// What becomes of a text from outside, whether new or out of the queue: nothing of an empty one; one
/// that comes while there is no session, or while a turn runs or is about to, waits, a new one behind
/// the others and one out of the queue before them; without a model an error is shown; and else the
/// text is offered as a turn and, once the turn is taken, to the history, and it is shown.
pub proof fn law_text_is_submitted_or_waits(
    widget: WidgetView,
    text: Seq<char>,
    taken: bool,
    noted: bool,
    fresh: bool,
)
    ensures
        ({
            let after = if fresh {
                widget.after_submit(text, true, taken, noted)
            } else {
                widget.after_dequeue(text, taken, noted)
            };
            let waits = !widget.session_configured || widget.user_turn_pending_start
                || widget.task_running;
            let speaks = says_something(widget.effective_collaboration_mode.settings.model@);
            let turn = CommandView::UserTurn(widget.turn(text));
            let history = CommandView::AddToHistory { text };
            let shown = RenderedView {
                message: text,
                text_elements: Seq::empty(),
                local_images: Seq::empty(),
                remote_image_urls: Seq::empty(),
            };
            &&& keeps_the_rest(widget, after)
            &&& text.len() == 0 ==> after == widget
            &&& text.len() > 0 && waits ==> {
                &&& submits_nothing(widget, after)
                &&& after.effects == widget.effects.push(EffectView::RefreshPendingInputPreview)
                &&& fresh ==> after.queued_user_messages == widget.queued_user_messages.push(
                    literal_queued(text),
                )
                &&& !fresh ==> after.queued_user_messages == seq![literal_queued(text)]
                    + widget.queued_user_messages
            }
            &&& text.len() > 0 && !waits ==> after.queued_user_messages
                == widget.queued_user_messages
            &&& text.len() > 0 && !waits && !speaks ==> {
                &&& submits_nothing(widget, after)
                &&& after.effects == widget.effects.push(
                    EffectView::ErrorMessage {
                        message: "Thread model is unavailable. Wait for the thread to finish syncing or choose a model before sending input."@,
                    },
                )
            }
            &&& text.len() > 0 && !waits && speaks && !taken ==> {
                &&& after.submitted == widget.submitted.push(turn)
                &&& after.delivered == widget.delivered
                &&& after.user_turn_pending_start == widget.user_turn_pending_start
                &&& after.needs_final_message_separator == widget.needs_final_message_separator
                &&& after.last_rendered == widget.last_rendered
                &&& after.effects == widget.effects
            }
            &&& text.len() > 0 && !waits && speaks && taken ==> {
                &&& after.submitted == widget.submitted.push(turn).push(history)
                &&& after.delivered == if noted {
                    widget.delivered.push(turn).push(history)
                } else {
                    widget.delivered.push(turn)
                }
                &&& after.user_turn_pending_start
                &&& !after.needs_final_message_separator
                &&& after.last_rendered == Some(shown)
                &&& after.effects == widget.effects.push(
                    EffectView::RecordVisibleUserTurnForCopy,
                ).push(EffectView::AddUserPromptToHistory { text })
            }
        }),
{
    law_blank_text_says_nothing(widget.effective_collaboration_mode.settings.model@);
}

/// Offering a command to the agent adds it to those that were offered, and to those that were taken
/// exactly if the agent took it; nothing else changes. A turn that was taken is pending and shown also
/// where nothing goes to the history.
pub proof fn law_offered_commands_are_counted(
    widget: WidgetView,
    command: CommandView,
    text: Seq<char>,
    taken: bool,
)
    ensures
        widget.offered(command, taken) == (WidgetView {
            submitted: widget.submitted.push(command),
            delivered: if taken {
                widget.delivered.push(command)
            } else {
                widget.delivered
            },
            ..widget
        }),
        ({
            let after = widget.turn_taken(None, text, taken);
            &&& keeps_the_rest(widget, after)
            &&& after.submitted == widget.submitted
            &&& after.delivered == widget.delivered
            &&& after.queued_user_messages == widget.queued_user_messages
            &&& after.user_turn_pending_start
            &&& !after.needs_final_message_separator
            &&& after.last_rendered matches Some(shown) && shown.message == text
            &&& after.effects == widget.effects.push(EffectView::RecordVisibleUserTurnForCopy).push(
                EffectView::AddUserPromptToHistory { text },
            )
        }),
{
}

/// What is handed on for a prepared text: the turn as a command, the text itself for the history, and
/// the text to show.
pub proof fn law_prepared_text_is_handed_on_whole(
    r: Option<(AppCommand, Option<AppCommand>, String)>,
    turn: UserTurnView,
    text: Seq<char>,
)
    ensures
        prepared_parts(r, turn, text) <==> {
            &&& r is Some
            &&& r->Some_0.0@ == CommandView::UserTurn(turn)
            &&& r->Some_0.1 is Some
            &&& r->Some_0.1->Some_0@ == (CommandView::AddToHistory { text })
            &&& r->Some_0.2@ == text
        },
{
}

/// A text that is sent to another place than the queue is prepared without regard to what runs here:
/// it becomes a turn exactly if it is not empty and a model is known.
pub proof fn law_prepared_text_is_a_turn(widget: WidgetView, text: Seq<char>, queue: bool)
    ensures
        ({
            let waits = !widget.session_configured || widget.user_turn_pending_start
                || widget.task_running;
            let speaks = says_something(widget.effective_collaboration_mode.settings.model@);
            &&& widget.prepared(text, queue) is Some <==> text.len() > 0 && speaks && !(queue
                && waits)
            &&& widget.prepared(text, queue) is Some ==> widget.prepared(text, queue) == Some(
                widget.turn(text),
            ) && widget.after_prepare(text, queue) == widget
            &&& !queue && text.len() > 0 && !speaks ==> {
                &&& keeps_the_rest(widget, widget.after_prepare(text, queue))
                &&& submits_nothing(widget, widget.after_prepare(text, queue))
                &&& widget.after_prepare(text, queue).queued_user_messages
                    == widget.queued_user_messages
                &&& widget.after_prepare(text, queue).effects == widget.effects.push(
                    EffectView::ErrorMessage {
                        message: "Thread model is unavailable. Wait for the thread to finish syncing or choose a model before sending input."@,
                    },
                )
            }
            &&& text.len() == 0 ==> widget.after_prepare(text, queue) == widget
        }),
{
    law_blank_text_says_nothing(widget.effective_collaboration_mode.settings.model@);
}

/// The turn that a text becomes in another thread holds the text and carries the context of that
/// thread's session, field by field. Its mode goes along where modes are on and a mask is active in
/// that thread: it is the thread's own mode under its mask, with the model and the effort of the
/// session.
pub proof fn law_targeted_turn_carries_the_session(
    text: Seq<char>,
    session: ThreadSessionState,
    input_state: Option<ThreadInputState>,
    collaboration_modes_enabled: bool,
)
    ensures
        ({
            let turn = targeted_turn(text, session, input_state, collaboration_modes_enabled);
            &&& turn.items.len() == 1
            &&& turn.items[0]->text == text
            &&& turn.items[0]->text_elements.len() == 0
            &&& turn.cwd == session.cwd
            &&& turn.approval_policy == session.approval_policy
            &&& turn.sandbox_policy == Some(session.sandbox_policy)
            &&& session.sandbox_policy.external ==> turn.permission_profile is None
            &&& !session.sandbox_policy.external ==> turn.permission_profile
                == session.permission_profile
            &&& turn.model == session.model
            &&& turn.effort == session.reasoning_effort
            &&& turn.summary is None
            &&& turn.service_tier == Some(session.service_tier)
            &&& turn.final_output_json_schema is None
            &&& turn.personality is None
            &&& turn.approvals_reviewer == Some(session.approvals_reviewer)
            &&& turn.collaboration_mode is Some <==> collaboration_modes_enabled && (input_state
                matches Some(state) && state.active_collaboration_mask is Some)
            &&& turn.collaboration_mode matches Some(mode) ==> {
                let state = input_state->Some_0;
                let mask = state.active_collaboration_mask->Some_0;
                &&& mode.settings.model == session.model
                &&& mode.settings.reasoning_effort == session.reasoning_effort
                &&& mask.mode is None ==> mode.mode == state.current_collaboration_mode.mode
                &&& mask.mode matches Some(kind) ==> mode.mode == kind
                &&& mask.developer_instructions is None ==> mode.settings.developer_instructions
                    == state.current_collaboration_mode.settings.developer_instructions
                &&& mask.developer_instructions matches Some(given)
                    ==> mode.settings.developer_instructions == given
            }
        }),
{
}

/// A turn for another thread runs with the model and the effort of that thread's session,
/// whatever mask is active there.
pub proof fn law_targeted_turn_uses_session_model(
    text: Seq<char>,
    session: ThreadSessionState,
    input_state: Option<ThreadInputState>,
    collaboration_modes_enabled: bool,
)
    ensures
        targeted_turn(text, session, input_state, collaboration_modes_enabled).model
            == session.model,
        targeted_turn(text, session, input_state, collaboration_modes_enabled).effort
            == session.reasoning_effort,
{
}

} // verus!
