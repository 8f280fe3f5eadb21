//! Side conversations that are asked for from outside: each runs in a hidden fork of the main
//! thread, answers once, and is cleaned up.

use crate::app_command::{
    plain_input, plain_text_input, AppCommand, ApprovalPolicy, CommandView, PermissionProfile,
    Personality, ReasoningEffort, ServiceTier, UserTurn, UserTurnView,
};
use crate::app_event::{AppEvent, AppEventSender, EventView};
use crate::text::{blank, is_blank, law_blank_text_says_nothing, opt_view, says_something};
use crate::thread_id::ThreadId;
use std::collections::HashMap;
use vstd::prelude::*;
use vstd::string::*;

verus! {

broadcast use vstd::std_specs::hash::group_hash_axioms;

/// A side conversation that runs.
#[derive(Debug, PartialEq, Eq)]
pub struct ExternalBtwState {
    pub request_id: String,
    pub parent_thread_id: ThreadId,
    pub answer: Option<String>,
}

/// The content of a side conversation that runs.
#[verifier::ext_equal]
pub struct BtwView {
    pub request_id: Seq<char>,
    pub parent_thread_id: ThreadId,
    pub answer: Option<Seq<char>>,
}

impl View for ExternalBtwState {
    type V = BtwView;

    open spec fn view(&self) -> BtwView {
        BtwView {
            request_id: self.request_id@,
            parent_thread_id: self.parent_thread_id,
            answer: opt_view(self.answer),
        }
    }
}

/// An entry about a side conversation in the session log.
#[derive(Debug, PartialEq, Eq)]
#[allow(inconsistent_fields)]
pub enum BtwLog {
    Started { request_id: String, parent_thread_id: ThreadId, thread_id: ThreadId },
    Completed {
        request_id: String,
        parent_thread_id: ThreadId,
        thread_id: ThreadId,
        answer: String,
    },
    Failed {
        request_id: String,
        parent_thread_id: Option<ThreadId>,
        thread_id: Option<ThreadId>,
        error: String,
    },
}

/// The content of an entry about a side conversation.
#[verifier::ext_equal]
#[allow(inconsistent_fields)]
pub enum BtwLogView {
    Started { request_id: Seq<char>, parent_thread_id: ThreadId, thread_id: ThreadId },
    Completed {
        request_id: Seq<char>,
        parent_thread_id: ThreadId,
        thread_id: ThreadId,
        answer: Seq<char>,
    },
    Failed {
        request_id: Seq<char>,
        parent_thread_id: Option<ThreadId>,
        thread_id: Option<ThreadId>,
        error: Seq<char>,
    },
}

impl View for BtwLog {
    type V = BtwLogView;

    open spec fn view(&self) -> BtwLogView {
        match self {
            BtwLog::Started { request_id, parent_thread_id, thread_id } => BtwLogView::Started {
                request_id: request_id@,
                parent_thread_id: *parent_thread_id,
                thread_id: *thread_id,
            },
            BtwLog::Completed { request_id, parent_thread_id, thread_id, answer } =>
                BtwLogView::Completed {
                request_id: request_id@,
                parent_thread_id: *parent_thread_id,
                thread_id: *thread_id,
                answer: answer@,
            },
            BtwLog::Failed { request_id, parent_thread_id, thread_id, error } =>
                BtwLogView::Failed {
                request_id: request_id@,
                parent_thread_id: *parent_thread_id,
                thread_id: *thread_id,
                error: error@,
            },
        }
    }
}

/// The contents of entries about side conversations.
pub open spec fn log_views(log: Seq<BtwLog>) -> Seq<BtwLogView> {
    log.map_values(|entry: BtwLog| entry@)
}

/// The contents of the side conversations that run.
pub open spec fn request_views(requests: Map<u128, ExternalBtwState>) -> Map<u128, BtwView> {
    requests.map_values(|state: ExternalBtwState| state@)
}

/// How a turn ended.
#[derive(Clone, Copy, Debug, PartialEq, Eq, Structural)]
pub enum TurnStatus {
    Completed,
    Interrupted,
    Failed,
    InProgress,
}

/// What the server says about a thread.
#[derive(Debug, PartialEq, Eq)]
pub enum BtwNotification {
    /// An item is complete; the text of it where it is a message of the agent.
    ItemCompleted { agent_message: Option<String> },
    TurnCompleted { status: TurnStatus },
    ThreadClosed,
    Other,
}

/// The application, as far as side conversations are concerned.
pub struct App {
    pub primary_thread_id: Option<ThreadId>,
    pub external_btw_requests: HashMap<u128, ExternalBtwState>,
    pub btw_log: Vec<BtwLog>,
    pub app_event_tx: AppEventSender,
}

/// The content of the application.
#[verifier::ext_equal]
pub struct AppView {
    pub primary_thread_id: Option<ThreadId>,
    pub requests: Map<u128, BtwView>,
    pub log: Seq<BtwLogView>,
    /// The events offered to the application's channel.
    pub sent: Seq<EventView>,
    /// Those of them that the channel took.
    pub delivered: Seq<EventView>,
}

impl View for App {
    type V = AppView;

    open spec fn view(&self) -> AppView {
        AppView {
            primary_thread_id: self.primary_thread_id,
            requests: request_views(self.external_btw_requests@),
            log: log_views(self.btw_log@),
            sent: self.app_event_tx.sent(),
            delivered: self.app_event_tx.delivered(),
        }
    }
}

/// The entry about a failure.
pub open spec fn failed_entry(
    request_id: Seq<char>,
    parent_thread_id: Option<ThreadId>,
    thread_id: Option<ThreadId>,
    error: Seq<char>,
) -> BtwLogView {
    BtwLogView::Failed { request_id, parent_thread_id, thread_id, error }
}

/// The name of an unhappy end in the log.
pub open spec fn status_error(status: TurnStatus) -> Seq<char> {
    match status {
        TurnStatus::Completed => "turn_completed"@,
        TurnStatus::Interrupted => "turn_interrupted"@,
        TurnStatus::Failed => "turn_failed"@,
        TurnStatus::InProgress => "turn_inprogress"@,
    }
}

impl AppView {
    /// The application after an entry was logged.
    pub open spec fn logged(self, entry: BtwLogView) -> AppView {
        AppView { log: self.log.push(entry), ..self }
    }

    /// The application after the cleanup of a thread was asked for, which the channel took or not.
    pub open spec fn cleaning(self, thread_id: ThreadId, taken: bool) -> AppView {
        let cleanup = EventView::CleanupExternalBtw { thread_id };
        AppView {
            sent: self.sent.push(cleanup),
            delivered: if taken {
                self.delivered.push(cleanup)
            } else {
                self.delivered
            },
            ..self
        }
    }

    /// Whether the channel took an event since the application was as `before`.
    pub open spec fn took_more(self, before: AppView) -> bool {
        self.delivered.len() > before.delivered.len()
    }

    /// The application after a side conversation was taken off the list.
    pub open spec fn without(self, thread_id: ThreadId) -> AppView {
        AppView { requests: self.requests.remove(thread_id.uuid), ..self }
    }

    /// The application after a side conversation that runs has ended with an entry.
    pub open spec fn ended(self, thread_id: ThreadId, entry: BtwLogView, taken: bool) -> AppView {
        self.without(thread_id).logged(entry).cleaning(thread_id, taken)
    }

    /// The application after a side conversation that runs has failed.
    pub open spec fn failed(self, thread_id: ThreadId, error: Seq<char>, taken: bool) -> AppView {
        let state = self.requests[thread_id.uuid];
        self.ended(
            thread_id,
            failed_entry(
                state.request_id,
                Some(state.parent_thread_id),
                Some(thread_id),
                error,
            ),
            taken,
        )
    }

    /// The application after the turn of a side conversation has ended.
    pub open spec fn turn_ended(
        self,
        thread_id: ThreadId,
        status: TurnStatus,
        taken: bool,
    ) -> AppView {
        let state = self.requests[thread_id.uuid];
        if status == TurnStatus::Completed {
            match state.answer {
                Some(answer) => if blank(answer) {
                    self.failed(thread_id, "completed_without_agent_message"@, taken)
                } else {
                    self.ended(
                        thread_id,
                        BtwLogView::Completed {
                            request_id: state.request_id,
                            parent_thread_id: state.parent_thread_id,
                            thread_id,
                            answer,
                        },
                        taken,
                    )
                },
                None => self.failed(thread_id, "completed_without_agent_message"@, taken),
            }
        } else {
            self.failed(thread_id, status_error(status), taken)
        }
    }

    /// The application after the thread of a side conversation could not be forked.
    pub open spec fn fork_failed(self, launch: BtwLaunch, error: Seq<char>) -> AppView {
        self.logged(
            failed_entry(
                launch.request_id@,
                Some(launch.parent_thread_id),
                None,
                "thread_fork_failed: "@ + error,
            ),
        )
    }

    /// The application after the thread of a side conversation could not be made ready.
    pub open spec fn prepare_failed(self, fork: BtwFork, error: Seq<char>, taken: bool) -> AppView {
        self.logged(
            failed_entry(
                fork.launch.request_id@,
                Some(fork.launch.parent_thread_id),
                Some(fork.child_thread_id),
                "thread_prepare_failed: "@ + error,
            ),
        ).cleaning(fork.child_thread_id, taken)
    }

    /// The application after a side conversation was put on the list.
    pub open spec fn listed(self, fork: BtwFork) -> AppView {
        AppView {
            requests: self.requests.insert(
                fork.child_thread_id.uuid,
                BtwView {
                    request_id: fork.launch.request_id@,
                    parent_thread_id: fork.launch.parent_thread_id,
                    answer: None,
                },
            ),
            ..self
        }
    }

    /// The application after the turn of a side conversation was submitted.
    pub open spec fn submitted(self, fork: BtwFork) -> AppView {
        self.logged(
            BtwLogView::Started {
                request_id: fork.launch.request_id@,
                parent_thread_id: fork.launch.parent_thread_id,
                thread_id: fork.child_thread_id,
            },
        )
    }

    /// The application after the turn of a side conversation could not be submitted.
    pub open spec fn submit_failed(self, fork: BtwFork, error: Seq<char>, taken: bool) -> AppView {
        self.ended(
            fork.child_thread_id,
            failed_entry(
                fork.launch.request_id@,
                Some(fork.launch.parent_thread_id),
                Some(fork.child_thread_id),
                "turn_start_failed: "@ + error,
            ),
            taken,
        )
    }

    /// The application after the server said something about a side conversation that runs.
    pub open spec fn notified(
        self,
        thread_id: ThreadId,
        notification: BtwNotification,
        taken: bool,
    ) -> AppView {
        match notification {
            BtwNotification::ItemCompleted { agent_message } => match agent_message {
                Some(text) => if blank(text@) {
                    self
                } else {
                    AppView {
                        requests: self.requests.insert(
                            thread_id.uuid,
                            BtwView {
                                answer: Some(text@),
                                ..self.requests[thread_id.uuid]
                            },
                        ),
                        ..self
                    }
                },
                None => self,
            },
            BtwNotification::TurnCompleted { status } => self.turn_ended(thread_id, status, taken),
            BtwNotification::ThreadClosed => self.failed(thread_id, "thread_closed"@, taken),
            BtwNotification::Other => self,
        }
    }
}

/// The entries about the failures of several side conversations.
pub open spec fn failures(
    requests: Map<u128, BtwView>,
    order: Seq<u128>,
    error: Seq<char>,
) -> Seq<BtwLogView> {
    order.map_values(
        |uuid: u128|
            failed_entry(
                requests[uuid].request_id,
                Some(requests[uuid].parent_thread_id),
                Some(ThreadId { uuid }),
                error,
            ),
    )
}

/// Those of several events that were taken.
pub open spec fn taken_of(events: Seq<EventView>, taken: Seq<bool>) -> Seq<EventView>
    decreases events.len(),
{
    if events.len() == 0 {
        Seq::empty()
    } else {
        let before = taken_of(events.drop_last(), taken);
        if taken[events.len() - 1] {
            before.push(events.last())
        } else {
            before
        }
    }
}

/// What was taken of events depends on as many flags only.
proof fn lemma_taken_of_prefix(events: Seq<EventView>, a: Seq<bool>, b: Seq<bool>)
    requires
        events.len() <= a.len(),
        events.len() <= b.len(),
        forall|i: int| 0 <= i < events.len() ==> a[i] == b[i],
    ensures
        taken_of(events, a) == taken_of(events, b),
    decreases events.len(),
{
    if events.len() > 0 {
        lemma_taken_of_prefix(events.drop_last(), a, b);
    }
}

/// The cleanups of several side conversations.
pub open spec fn cleanups(order: Seq<u128>) -> Seq<EventView> {
    order.map_values(|uuid: u128| EventView::CleanupExternalBtw { thread_id: ThreadId { uuid } })
}

/// A side conversation that is about to be started.
#[derive(Debug, PartialEq, Eq)]
pub struct BtwLaunch {
    pub request_id: String,
    pub parent_thread_id: ThreadId,
    pub prompt: String,
}

/// A side conversation whose thread exists.
#[derive(Debug, PartialEq, Eq)]
pub struct BtwFork {
    pub launch: BtwLaunch,
    pub child_thread_id: ThreadId,
}

/// The configuration of a fork.
pub struct ForkConfig {
    pub model: Option<String>,
    pub cwd: String,
    pub approval_policy: ApprovalPolicy,
    pub active_permission_profile: Option<PermissionProfile>,
    pub model_reasoning_effort: Option<ReasoningEffort>,
    pub service_tier: Option<ServiceTier>,
    pub personality: Option<Personality>,
}

/// The model of a fork: the configured one if there is a name in it, else the current one.
pub open spec fn fork_model(config: ForkConfig, current_model: String) -> String {
    match config.model {
        Some(model) => if blank(model@) {
            current_model
        } else {
            model
        },
        None => current_model,
    }
}

/// The turn that a side conversation consists of.
pub open spec fn fork_turn(
    prompt: Seq<char>,
    config: ForkConfig,
    current_model: String,
) -> UserTurnView {
    UserTurnView {
        items: plain_input(prompt),
        cwd: config.cwd,
        approval_policy: config.approval_policy,
        sandbox_policy: None,
        permission_profile: config.active_permission_profile,
        model: fork_model(config, current_model),
        effort: config.model_reasoning_effort,
        summary: None,
        service_tier: Some(config.service_tier),
        final_output_json_schema: None,
        collaboration_mode: None,
        personality: config.personality,
        approvals_reviewer: None,
    }
}

impl App {
    fn log(&mut self, entry: BtwLog)
        ensures
            final(self)@ == old(self)@.logged(entry@),
    {
        self.btw_log.push(entry);
        assert(log_views(self.btw_log@) =~= log_views(old(self).btw_log@).push(entry@));
    }

    fn log_failed(
        &mut self,
        request_id: &str,
        parent_thread_id: Option<ThreadId>,
        thread_id: Option<ThreadId>,
        error: &str,
    )
        ensures
            final(self)@ == old(self)@.logged(
                failed_entry(request_id@, parent_thread_id, thread_id, error@),
            ),
    {
        self.log(
            BtwLog::Failed {
                request_id: request_id.to_string(),
                parent_thread_id,
                thread_id,
                error: error.to_string(),
            },
        );
    }

    fn log_failed_because(
        &mut self,
        request_id: &str,
        parent_thread_id: ThreadId,
        thread_id: Option<ThreadId>,
        what: &str,
        error: &str,
    )
        ensures
            final(self)@ == old(self)@.logged(
                failed_entry(request_id@, Some(parent_thread_id), thread_id, what@ + error@),
            ),
    {
        let mut text = what.to_string();
        text.append(error);
        self.log_failed(request_id, Some(parent_thread_id), thread_id, text.as_str());
    }

    fn clean_up(&mut self, thread_id: ThreadId)
        ensures
            final(self)@ == old(self)@.cleaning(thread_id, final(self)@.took_more(old(self)@)),
    {
        let _taken = self.app_event_tx.send(AppEvent::CleanupExternalBtw { thread_id });
    }

    /// Begins a side conversation, if there is a main thread and no other one runs.
    pub fn start_external_btw(&mut self, request_id: String, prompt: String) -> (r: Option<
        BtwLaunch,
    >)
        ensures
            match old(self).primary_thread_id {
                None => {
                    &&& r is None
                    &&& final(self)@ == old(self)@.logged(
                        failed_entry(request_id@, None, None, "main_thread_unavailable"@),
                    )
                },
                Some(parent) => if old(self)@.requests.len() > 0 {
                    &&& r is None
                    &&& final(self)@ == old(self)@.logged(
                        failed_entry(
                            request_id@,
                            Some(parent),
                            None,
                            "btw_request_already_active"@,
                        ),
                    )
                } else {
                    &&& r == Some(BtwLaunch { request_id, parent_thread_id: parent, prompt })
                    &&& final(self)@ == old(self)@
                },
            },
    {
        match self.primary_thread_id {
            None => {
                self.log_failed(request_id.as_str(), None, None, "main_thread_unavailable");
                None
            },
            Some(parent_thread_id) => {
                proof {
                    assert(self@.requests.dom() =~= self.external_btw_requests@.dom());
                }
                if self.external_btw_requests.len() > 0 {
                    self.log_failed(
                        request_id.as_str(),
                        Some(parent_thread_id),
                        None,
                        "btw_request_already_active",
                    );
                    return None;
                }
                Some(BtwLaunch { request_id, parent_thread_id, prompt })
            },
        }
    }

    /// The thread was forked, or could not be.
    pub fn external_btw_forked(
        &mut self,
        launch: BtwLaunch,
        forked: Result<ThreadId, String>,
    ) -> (r: Option<BtwFork>)
        ensures
            match forked {
                Ok(child_thread_id) => {
                    &&& r == Some(BtwFork { launch, child_thread_id })
                    &&& final(self)@ == old(self)@
                },
                Err(error) => {
                    &&& r is None
                    &&& final(self)@ == old(self)@.fork_failed(launch, error@)
                },
            },
    {
        match forked {
            Ok(child_thread_id) => Some(BtwFork { launch, child_thread_id }),
            Err(error) => {
                self.log_failed_because(
                    launch.request_id.as_str(),
                    launch.parent_thread_id,
                    None,
                    "thread_fork_failed: ",
                    error.as_str(),
                );
                None
            },
        }
    }

    /// The thread was made ready, or could not be. A thread that is ready is on the list before
    /// its turn is submitted.
    pub fn external_btw_prepared(
        &mut self,
        fork: &BtwFork,
        prepared: Result<(), String>,
        config: &ForkConfig,
        current_model: &String,
    ) -> (r: Option<AppCommand>)
        ensures
            match prepared {
                Ok(()) => {
                    &&& r matches Some(op)
                    &&& op@ == CommandView::UserTurn(
                        fork_turn(fork.launch.prompt@, *config, *current_model),
                    )
                    &&& final(self)@ == old(self)@.listed(*fork)
                },
                Err(error) => {
                    &&& r is None
                    &&& final(self)@ == old(self)@.prepare_failed(
                        *fork,
                        error@,
                        final(self)@.took_more(old(self)@),
                    )
                },
            },
    {
        if let Err(error) = prepared {
            self.log_failed_because(
                fork.launch.request_id.as_str(),
                fork.launch.parent_thread_id,
                Some(fork.child_thread_id),
                "thread_prepare_failed: ",
                error.as_str(),
            );
            self.clean_up(fork.child_thread_id);
            return None;
        }
        let state = ExternalBtwState {
            request_id: fork.launch.request_id.clone(),
            parent_thread_id: fork.launch.parent_thread_id,
            answer: None,
        };
        self.external_btw_requests.insert(fork.child_thread_id.uuid, state);
        assert(self@.requests =~= old(self)@.requests.insert(fork.child_thread_id.uuid, state@));
        let model = match &config.model {
            Some(model) => if is_blank(model.as_str()) {
                current_model.clone()
            } else {
                model.clone()
            },
            None => current_model.clone(),
        };
        let turn = UserTurn {
            items: plain_text_input(&fork.launch.prompt),
            cwd: config.cwd.clone(),
            approval_policy: config.approval_policy,
            sandbox_policy: None,
            permission_profile: match &config.active_permission_profile {
                Some(profile) => Some(profile.clone()),
                None => None,
            },
            model,
            effort: config.model_reasoning_effort,
            summary: None,
            service_tier: Some(config.service_tier),
            final_output_json_schema: None,
            collaboration_mode: None,
            personality: config.personality,
            approvals_reviewer: None,
        };
        assert(turn@ =~= fork_turn(fork.launch.prompt@, *config, *current_model));
        Some(AppCommand::UserTurn(turn))
    }

    /// The turn was submitted, or could not be.
    pub fn external_btw_submitted(&mut self, fork: BtwFork, submitted: Result<(), String>)
        ensures
            final(self)@ == (match submitted {
                Ok(()) => old(self)@.submitted(fork),
                Err(error) => old(self)@.submit_failed(
                    fork,
                    error@,
                    final(self)@.took_more(old(self)@),
                ),
            }),
    {
        match submitted {
            Ok(()) => {
                self.log(
                    BtwLog::Started {
                        request_id: fork.launch.request_id,
                        parent_thread_id: fork.launch.parent_thread_id,
                        thread_id: fork.child_thread_id,
                    },
                );
            },
            Err(error) => {
                let _removed = self.take_request(fork.child_thread_id);
                self.log_failed_because(
                    fork.launch.request_id.as_str(),
                    fork.launch.parent_thread_id,
                    Some(fork.child_thread_id),
                    "turn_start_failed: ",
                    error.as_str(),
                );
                self.clean_up(fork.child_thread_id);
            },
        }
    }

    /// Takes a side conversation off the list.
    fn take_request(&mut self, thread_id: ThreadId) -> (r: Option<ExternalBtwState>)
        ensures
            final(self)@ == old(self)@.without(thread_id),
            r is Some <==> old(self)@.requests.contains_key(thread_id.uuid),
            r matches Some(state) ==> state@ == old(self)@.requests[thread_id.uuid],
    {
        let r = self.external_btw_requests.remove(&thread_id.uuid);
        assert(self@.requests =~= old(self)@.requests.remove(thread_id.uuid));
        r
    }

    /// Takes in what the server says about a thread. Gives whether the thread is a side
    /// conversation, of which nothing is to be shown.
    pub fn handle_external_btw_notification(
        &mut self,
        thread_id: ThreadId,
        notification: &BtwNotification,
    ) -> (hidden: bool)
        ensures
            hidden == old(self)@.requests.contains_key(thread_id.uuid),
            final(self)@ == (if hidden {
                old(self)@.notified(
                    thread_id,
                    *notification,
                    final(self)@.took_more(old(self)@),
                )
            } else {
                old(self)@
            }),
    {
        if !self.external_btw_requests.contains_key(&thread_id.uuid) {
            return false;
        }
        let ghost before = self@;
        match notification {
            BtwNotification::ItemCompleted { agent_message } => {
                if let Some(text) = agent_message {
                    if !is_blank(text.as_str()) {
                        if let Some(state) = self.take_request(thread_id) {
                            let mut state = state;
                            state.answer = Some(text.clone());
                            let ghost answered = BtwView {
                                answer: Some(text@),
                                ..before.requests[thread_id.uuid]
                            };
                            assert(state@ == answered);
                            let ghost rest = self@.requests;
                            self.external_btw_requests.insert(thread_id.uuid, state);
                            assert(self@.requests =~= rest.insert(thread_id.uuid, answered));
                            assert(self@.requests =~= before.requests.insert(
                                thread_id.uuid,
                                answered,
                            ));
                        }
                    }
                }
            },
            BtwNotification::TurnCompleted { status } => {
                if let Some(state) = self.take_request(thread_id) {
                    self.finish_turn(thread_id, state, *status);
                }
            },
            BtwNotification::ThreadClosed => {
                let _failed = self.fail_external_btw(thread_id, "thread_closed");
            },
            BtwNotification::Other => {},
        }
        assert(self@ =~= before.notified(thread_id, *notification, self@.took_more(before)));
        true
    }

    /// Ends a side conversation whose turn is over and which is off the list already.
    fn finish_turn(&mut self, thread_id: ThreadId, state: ExternalBtwState, status: TurnStatus)
        ensures
            forall|before: AppView|
                before.requests.contains_key(thread_id.uuid) && before.requests[thread_id.uuid]
                    == state@ && old(self)@ == before.without(thread_id) ==> final(self)@
                    == #[trigger] before.turn_ended(thread_id, status, final(self)@.took_more(old(self)@)),
    {
        let error = match status {
            TurnStatus::Completed => match state.answer {
                Some(answer) => {
                    if !is_blank(answer.as_str()) {
                        self.log(
                            BtwLog::Completed {
                                request_id: state.request_id,
                                parent_thread_id: state.parent_thread_id,
                                thread_id,
                                answer,
                            },
                        );
                        self.clean_up(thread_id);
                        return;
                    }
                    "completed_without_agent_message"
                },
                None => "completed_without_agent_message",
            },
            TurnStatus::Failed => "turn_failed",
            TurnStatus::Interrupted => "turn_interrupted",
            TurnStatus::InProgress => "turn_inprogress",
        };
        self.log_failed(
            state.request_id.as_str(),
            Some(state.parent_thread_id),
            Some(thread_id),
            error,
        );
        self.clean_up(thread_id);
    }

    /// Ends a side conversation with an error. Gives whether there was one.
    pub fn fail_external_btw(&mut self, thread_id: ThreadId, error: &str) -> (found: bool)
        ensures
            found == old(self)@.requests.contains_key(thread_id.uuid),
            final(self)@ == (if found {
                old(self)@.failed(thread_id, error@, final(self)@.took_more(old(self)@))
            } else {
                old(self)@
            }),
    {
        match self.take_request(thread_id) {
            Some(state) => {
                self.log_failed(
                    state.request_id.as_str(),
                    Some(state.parent_thread_id),
                    Some(thread_id),
                    error,
                );
                self.clean_up(thread_id);
                true
            },
            None => {
                assert(self@ =~= old(self)@);
                false
            },
        }
    }

    /// Ends all side conversations with an error, in whatever order.
    pub fn fail_all_external_btw(&mut self, error: &str)
        ensures
            final(self)@.primary_thread_id == old(self)@.primary_thread_id,
            final(self)@.requests == Map::<u128, BtwView>::empty(),
            exists|order: Seq<u128>, taken: Seq<bool>|
                {
                    &&& taken.len() == order.len()
                    &&& order.no_duplicates()
                    &&& order.to_set() == old(self)@.requests.dom()
                    &&& final(self)@.log == old(self)@.log + #[trigger] failures(
                        old(self)@.requests,
                        order,
                        error@,
                    )
                    &&& final(self)@.sent == old(self)@.sent + cleanups(order)
                    &&& final(self)@.delivered == old(self)@.delivered + #[trigger] taken_of(
                        cleanups(order),
                        taken,
                    )
                },
    {
        let ghost before = self@;
        let mut ids: Vec<u128> = Vec::new();
        for id in it: self.external_btw_requests.keys()
            invariant
                ids@.len() == it.index(),
                forall|j: int| 0 <= j < ids@.len() ==> ids@[j] == *it.seq()[j],
        {
            ids.push(*id);
        }
        let ghost order = ids@;
        proof {
            let keys = vstd::std_specs::hash::spec_keys_iter(&self.external_btw_requests);
            assert(order =~= vstd::std_specs::iter::IteratorSpec::remaining(&keys).unref());
            assert(order.to_set() =~= before.requests.dom());
        }
        let mut i: usize = 0;
        assert(before.log + failures(before.requests, order.take(0), error@) =~= before.log);
        assert(before.sent + cleanups(order.take(0)) =~= before.sent);
        let ghost mut taken: Seq<bool> = Seq::empty();
        assert(before.delivered + taken_of(cleanups(order.take(0)), taken) =~= before.delivered);
        while i < ids.len()
            invariant
                i <= ids.len(),
                ids@ == order,
                order.no_duplicates(),
                order.to_set() == before.requests.dom(),
                self@.primary_thread_id == before.primary_thread_id,
                self@.log == before.log + failures(before.requests, order.take(i as int), error@),
                self@.sent == before.sent + cleanups(order.take(i as int)),
                taken.len() == i,
                self@.delivered == before.delivered + taken_of(
                    cleanups(order.take(i as int)),
                    taken,
                ),
                forall|id: u128| #[trigger]
                    self@.requests.contains_key(id) <==> before.requests.contains_key(id)
                        && !order.take(i as int).contains(id),
                forall|id: u128| #[trigger]
                    self@.requests.contains_key(id) ==> self@.requests[id] == before.requests[id],
            decreases ids.len() - i,
        {
            let id: u128 = ids[i];
            let ghost current = self@;
            proof {
                assert(order.to_set().contains(id));
                assert(!order.take(i as int).contains(id));
                assert(current.requests.contains_key(id));
            }
            let _found = self.fail_external_btw(ThreadId { uuid: id }, error);
            proof {
                let done = order.take(i + 1);
                assert(done =~= order.take(i as int).push(id));
                assert(failures(before.requests, done, error@) =~= failures(
                    before.requests,
                    order.take(i as int),
                    error@,
                ).push(
                    failed_entry(
                        before.requests[id].request_id,
                        Some(before.requests[id].parent_thread_id),
                        Some(ThreadId { uuid: id }),
                        error@,
                    ),
                ));
                assert(cleanups(done) =~= cleanups(order.take(i as int)).push(
                    EventView::CleanupExternalBtw { thread_id: ThreadId { uuid: id } },
                ));
                assert(self@.log =~= before.log + failures(before.requests, done, error@));
                assert(self@.sent =~= before.sent + cleanups(done));
                let flags = taken.push(self@.took_more(current));
                assert(cleanups(done).drop_last() =~= cleanups(order.take(i as int)));
                lemma_taken_of_prefix(cleanups(order.take(i as int)), taken, flags);
                assert(self@.delivered =~= before.delivered + taken_of(cleanups(done), flags));
                taken = flags;
                assert forall|other: u128| #[trigger]
                    self@.requests.contains_key(other) <==> before.requests.contains_key(other)
                        && !done.contains(other) by {
                    if done.contains(other) && other != id {
                        let k = done.index_of(other);
                        assert(order.take(i as int)[k] == other);
                    }
                    if order.take(i as int).contains(other) {
                        let k = order.take(i as int).index_of(other);
                        assert(done[k] == other);
                    }
                    assert(done[i as int] == id);
                }
            }
            i = i + 1;
        }
        proof {
            assert(order.take(i as int) =~= order);
            assert(self@.delivered == before.delivered + taken_of(cleanups(order), taken));
            assert forall|id: u128| !(#[trigger] self@.requests.contains_key(id)) by {
                if before.requests.contains_key(id) {
                    assert(order.to_set().contains(id));
                }
            }
            assert(self@.requests =~= Map::empty());
        }
    }
}

/// The request id that an entry is about.
pub open spec fn entry_request(entry: BtwLogView) -> Seq<char> {
    match entry {
        BtwLogView::Started { request_id, .. } => request_id,
        BtwLogView::Completed { request_id, .. } => request_id,
        BtwLogView::Failed { request_id, .. } => request_id,
    }
}

/// Whether a notification ends the side conversation that it is about.
pub open spec fn is_final(notification: BtwNotification) -> bool {
    notification is TurnCompleted || notification is ThreadClosed
}

/// A side conversation that does not come about leaves one entry about its request and, where its
/// thread existed, one cleanup of it; the list is what it was.
pub proof fn law_failed_launch_leaves_one_entry(
    app: AppView,
    fork: BtwFork,
    error: Seq<char>,
    taken: bool,
)
    requires
        !app.requests.contains_key(fork.child_thread_id.uuid),
    ensures
        ({
            let unforked = app.fork_failed(fork.launch, error);
            &&& unforked.log.drop_last() == app.log
            &&& entry_request(unforked.log.last()) == fork.launch.request_id@
            &&& unforked.log.last() is Failed
            &&& unforked.sent == app.sent
            &&& unforked.requests == app.requests
        }),
        ({
            let cleanup = EventView::CleanupExternalBtw { thread_id: fork.child_thread_id };
            let unprepared = app.prepare_failed(fork, error, taken);
            let unsubmitted = app.listed(fork).submit_failed(fork, error, taken);
            &&& unprepared.log.drop_last() == app.log
            &&& entry_request(unprepared.log.last()) == fork.launch.request_id@
            &&& unprepared.log.last() is Failed
            &&& unprepared.sent == app.sent.push(cleanup)
            &&& unprepared.requests == app.requests
            &&& unsubmitted.log.drop_last() == app.log
            &&& entry_request(unsubmitted.log.last()) == fork.launch.request_id@
            &&& unsubmitted.log.last() is Failed
            &&& unsubmitted.sent == app.sent.push(cleanup)
            &&& unsubmitted.requests == app.requests
        }),
{
    let unforked = app.fork_failed(fork.launch, error);
    let unprepared = app.prepare_failed(fork, error, taken);
    let unsubmitted = app.listed(fork).submit_failed(fork, error, taken);
    assert(unforked.log.drop_last() =~= app.log);
    assert(unprepared.log.drop_last() =~= app.log);
    assert(unsubmitted.log.drop_last() =~= app.log);
    assert(unsubmitted.requests =~= app.requests);
}

/// A side conversation that came about and ended leaves two entries about its request, its start
/// and its end, and one cleanup of its thread; the list is what it was.
pub proof fn law_conversation_is_logged_from_start_to_end(
    app: AppView,
    fork: BtwFork,
    notification: BtwNotification,
    taken: bool,
)
    requires
        !app.requests.contains_key(fork.child_thread_id.uuid),
        is_final(notification),
    ensures
        ({
            let after = app.listed(fork).submitted(fork).notified(
                fork.child_thread_id,
                notification,
                taken,
            );
            let n = app.log.len() as int;
            &&& after.log.len() == n + 2
            &&& after.log.take(n) == app.log
            &&& after.log[n] is Started
            &&& entry_request(after.log[n]) == fork.launch.request_id@
            &&& !(after.log[n + 1] is Started)
            &&& entry_request(after.log[n + 1]) == fork.launch.request_id@
            &&& after.sent == app.sent.push(
                EventView::CleanupExternalBtw { thread_id: fork.child_thread_id },
            )
            &&& after.requests == app.requests
        }),
{
    let running = app.listed(fork).submitted(fork);
    let after = running.notified(fork.child_thread_id, notification, taken);
    law_conversation_ends_once(running, fork.child_thread_id, notification, taken);
    assert(after.log.take(app.log.len() as int) =~= app.log);
    assert(after.requests =~= app.requests);
}

/// A side conversation ends once: what ends it leaves one entry about its request and one
/// cleanup of its thread, takes it off the list, and touches no other.
pub proof fn law_conversation_ends_once(
    app: AppView,
    thread_id: ThreadId,
    notification: BtwNotification,
    taken: bool,
)
    requires
        app.requests.contains_key(thread_id.uuid),
        is_final(notification),
    ensures
        ({
            let after = app.notified(thread_id, notification, taken);
            &&& after.log.len() == app.log.len() + 1
            &&& after.log.drop_last() == app.log
            &&& entry_request(after.log.last()) == app.requests[thread_id.uuid].request_id
            &&& !(after.log.last() is Started)
            &&& after.sent == app.sent.push(EventView::CleanupExternalBtw { thread_id })
            &&& after.requests == app.requests.remove(thread_id.uuid)
        }),
{
    let after = app.notified(thread_id, notification, taken);
    assert(after.log.drop_last() =~= app.log);
}

/// What does not end a side conversation is neither logged nor cleaned up, and keeps it on the
/// list.
pub proof fn law_conversation_goes_on(
    app: AppView,
    thread_id: ThreadId,
    notification: BtwNotification,
    taken: bool,
)
    requires
        app.requests.contains_key(thread_id.uuid),
        !is_final(notification),
    ensures
        ({
            let after = app.notified(thread_id, notification, taken);
            &&& after.log == app.log
            &&& after.sent == app.sent
            &&& after.delivered == app.delivered
            &&& after.requests.dom() == app.requests.dom()
            &&& after.requests[thread_id.uuid].request_id
                == app.requests[thread_id.uuid].request_id
        }),
{
    let after = app.notified(thread_id, notification, taken);
    assert(after.requests.dom() =~= app.requests.dom());
}

/// The application after a run of completed items of a side conversation.
pub open spec fn after_items(app: AppView, thread_id: ThreadId, items: Seq<Option<String>>) -> AppView
    decreases items.len(),
{
    if items.len() == 0 {
        app
    } else {
        after_items(app, thread_id, items.drop_last()).notified(
            thread_id,
            BtwNotification::ItemCompleted { agent_message: items.last() },
            false,
        )
    }
}

/// The last message among completed items that says anything, or else what was known before.
pub open spec fn last_answer(known: Option<Seq<char>>, items: Seq<Option<String>>) -> Option<
    Seq<char>,
>
    decreases items.len(),
{
    if items.len() == 0 {
        known
    } else {
        match items.last() {
            Some(text) => if blank(text@) {
                last_answer(known, items.drop_last())
            } else {
                Some(text@)
            },
            None => last_answer(known, items.drop_last()),
        }
    }
}

proof fn lemma_items_collect_answer(app: AppView, thread_id: ThreadId, items: Seq<Option<String>>)
    requires
        app.requests.contains_key(thread_id.uuid),
    ensures
        ({
            let after = after_items(app, thread_id, items);
            let state = app.requests[thread_id.uuid];
            &&& after.requests.contains_key(thread_id.uuid)
            &&& after.requests[thread_id.uuid] == (BtwView {
                answer: last_answer(state.answer, items),
                ..state
            })
        }),
    decreases items.len(),
{
    if items.len() > 0 {
        lemma_items_collect_answer(app, thread_id, items.drop_last());
    }
}

/// The answer of a side conversation whose turn completes is the last message of the agent that
/// says anything. Where there is none, the conversation has failed.
pub proof fn law_last_message_is_the_answer(
    app: AppView,
    thread_id: ThreadId,
    items: Seq<Option<String>>,
    taken: bool,
)
    requires
        app.requests.contains_key(thread_id.uuid),
        app.requests[thread_id.uuid].answer is None,
    ensures
        ({
            let state = app.requests[thread_id.uuid];
            let after = after_items(app, thread_id, items).notified(
                thread_id,
                BtwNotification::TurnCompleted { status: TurnStatus::Completed },
                taken,
            );
            after.log.last() == (match last_answer(None, items) {
                Some(answer) => BtwLogView::Completed {
                    request_id: state.request_id,
                    parent_thread_id: state.parent_thread_id,
                    thread_id,
                    answer,
                },
                None => failed_entry(
                    state.request_id,
                    Some(state.parent_thread_id),
                    Some(thread_id),
                    "completed_without_agent_message"@,
                ),
            })
        }),
{
    lemma_items_collect_answer(app, thread_id, items);
    lemma_answer_says_something(items);
}

proof fn lemma_answer_says_something(items: Seq<Option<String>>)
    ensures
        last_answer(None, items) matches Some(answer) ==> !blank(answer),
    decreases items.len(),
{
    if items.len() > 0 {
        lemma_answer_says_something(items.drop_last());
    }
}

/// The turn of a side conversation runs with the configured model wherever the configuration of the
/// fork names one that says something, and with the current model exactly where it names none or a
/// blank one, whatever the two models are.
pub proof fn law_side_turn_uses_configured_model(
    prompt: Seq<char>,
    config: ForkConfig,
    current_model: String,
)
    ensures
        config.model matches Some(model) ==> (says_something(model@) ==> fork_turn(
            prompt,
            config,
            current_model,
        ).model == model),
        config.model matches Some(model) ==> (!says_something(model@) ==> fork_turn(
            prompt,
            config,
            current_model,
        ).model == current_model),
        config.model is None ==> fork_turn(prompt, config, current_model).model == current_model,
{
    if let Some(model) = config.model {
        law_blank_text_says_nothing(model@);
    }
}

/// The turn of a side conversation is what was asked and nothing else, in the context of the fork: its
/// directory, policy, profile, effort, tier and personality. It has no sandbox, mode or schema of its
/// own, and does not say who approves.
pub proof fn law_side_turn_carries_the_fork(
    prompt: Seq<char>,
    config: ForkConfig,
    current_model: String,
)
    ensures
        ({
            let turn = fork_turn(prompt, config, current_model);
            &&& turn.items.len() == 1
            &&& turn.items[0]->text == prompt
            &&& turn.items[0]->text_elements.len() == 0
            &&& turn.cwd == config.cwd
            &&& turn.approval_policy == config.approval_policy
            &&& turn.sandbox_policy is None
            &&& turn.permission_profile == config.active_permission_profile
            &&& turn.effort == config.model_reasoning_effort
            &&& turn.summary is None
            &&& turn.service_tier == Some(config.service_tier)
            &&& turn.final_output_json_schema is None
            &&& turn.collaboration_mode is None
            &&& turn.personality == config.personality
            &&& turn.approvals_reviewer is None
        }),
{
}

/// The entry about a side conversation that could not be forked, made ready or submitted tells which
/// of these it was and why, for the request and the threads that it concerns.
pub proof fn law_failed_launch_tells_why(
    app: AppView,
    fork: BtwFork,
    error: Seq<char>,
    taken: bool,
)
    ensures
        app.fork_failed(fork.launch, error).log == app.log.push(
            BtwLogView::Failed {
                request_id: fork.launch.request_id@,
                parent_thread_id: Some(fork.launch.parent_thread_id),
                thread_id: None,
                error: "thread_fork_failed: "@ + error,
            },
        ),
        app.prepare_failed(fork, error, taken).log == app.log.push(
            BtwLogView::Failed {
                request_id: fork.launch.request_id@,
                parent_thread_id: Some(fork.launch.parent_thread_id),
                thread_id: Some(fork.child_thread_id),
                error: "thread_prepare_failed: "@ + error,
            },
        ),
        app.submit_failed(fork, error, taken).log == app.log.push(
            BtwLogView::Failed {
                request_id: fork.launch.request_id@,
                parent_thread_id: Some(fork.launch.parent_thread_id),
                thread_id: Some(fork.child_thread_id),
                error: "turn_start_failed: "@ + error,
            },
        ),
        app.submit_failed(fork, error, taken).requests == app.requests.remove(
            fork.child_thread_id.uuid,
        ),
        app.prepare_failed(fork, error, taken).delivered == if taken {
            app.delivered.push(EventView::CleanupExternalBtw { thread_id: fork.child_thread_id })
        } else {
            app.delivered
        },
        app.submit_failed(fork, error, taken).delivered == app.prepare_failed(
            fork,
            error,
            taken,
        ).delivered,
        app.fork_failed(fork.launch, error).delivered == app.delivered,
        app.fork_failed(fork.launch, error).primary_thread_id == app.primary_thread_id,
        app.prepare_failed(fork, error, taken).primary_thread_id == app.primary_thread_id,
        app.submit_failed(fork, error, taken).primary_thread_id == app.primary_thread_id,
{
}

/// A side conversation that is ready stands on the list under its own thread, without an answer; once
/// its turn is submitted, its start is logged for its request and its threads.
pub proof fn law_ready_conversation_is_listed(app: AppView, fork: BtwFork)
    ensures
        ({
            let listed = app.listed(fork);
            &&& listed.requests.dom() == app.requests.dom().insert(fork.child_thread_id.uuid)
            &&& listed.requests[fork.child_thread_id.uuid].request_id == fork.launch.request_id@
            &&& listed.requests[fork.child_thread_id.uuid].parent_thread_id
                == fork.launch.parent_thread_id
            &&& listed.requests[fork.child_thread_id.uuid].answer is None
            &&& listed.log == app.log
            &&& listed.sent == app.sent
            &&& listed.delivered == app.delivered
            &&& listed.primary_thread_id == app.primary_thread_id
        }),
        app.submitted(fork) == (AppView {
            log: app.log.push(
                BtwLogView::Started {
                    request_id: fork.launch.request_id@,
                    parent_thread_id: fork.launch.parent_thread_id,
                    thread_id: fork.child_thread_id,
                },
            ),
            ..app
        }),
{
    assert(app.listed(fork).requests.dom() =~= app.requests.dom().insert(
        fork.child_thread_id.uuid,
    ));
}

/// How the end of a side conversation is logged, for its own request and threads: with its answer if
/// its turn completed and it has one that says something; and else as a failure, which names how the
/// turn ended, that there was no answer, or that the thread was closed. Its cleanup is asked for, and
/// it is off the list.
pub proof fn law_end_is_logged_as_it_was(
    app: AppView,
    thread_id: ThreadId,
    status: TurnStatus,
    reason: Seq<char>,
    taken: bool,
)
    requires
        app.requests.contains_key(thread_id.uuid),
    ensures
        ({
            let state = app.requests[thread_id.uuid];
            let answered = state.answer matches Some(answer) && says_something(answer);
            let failed = |error: Seq<char>|
                BtwLogView::Failed {
                    request_id: state.request_id,
                    parent_thread_id: Some(state.parent_thread_id),
                    thread_id: Some(thread_id),
                    error,
                };
            let after = app.notified(thread_id, BtwNotification::TurnCompleted { status }, taken);
            let closed = app.notified(thread_id, BtwNotification::ThreadClosed, taken);
            let told = app.failed(thread_id, reason, taken);
            &&& status == TurnStatus::Completed && answered ==> after.log == app.log.push(
                BtwLogView::Completed {
                    request_id: state.request_id,
                    parent_thread_id: state.parent_thread_id,
                    thread_id,
                    answer: state.answer->Some_0,
                },
            )
            &&& status == TurnStatus::Completed && !answered ==> after.log == app.log.push(
                failed("completed_without_agent_message"@),
            )
            &&& status == TurnStatus::Failed ==> after.log == app.log.push(failed("turn_failed"@))
            &&& status == TurnStatus::Interrupted ==> after.log == app.log.push(
                failed("turn_interrupted"@),
            )
            &&& status == TurnStatus::InProgress ==> after.log == app.log.push(
                failed("turn_inprogress"@),
            )
            &&& closed.log == app.log.push(failed("thread_closed"@))
            &&& told.log == app.log.push(failed(reason))
            &&& after.requests == app.requests.remove(thread_id.uuid)
            &&& closed.requests == app.requests.remove(thread_id.uuid)
            &&& told.requests == app.requests.remove(thread_id.uuid)
            &&& after.sent == app.sent.push(EventView::CleanupExternalBtw { thread_id })
            &&& closed.sent == after.sent
            &&& told.sent == after.sent
            &&& after.delivered == if taken {
                app.delivered.push(EventView::CleanupExternalBtw { thread_id })
            } else {
                app.delivered
            }
            &&& closed.delivered == after.delivered
            &&& told.delivered == after.delivered
            &&& after.primary_thread_id == app.primary_thread_id
            &&& closed.primary_thread_id == app.primary_thread_id
            &&& told.primary_thread_id == app.primary_thread_id
        }),
{
    let state = app.requests[thread_id.uuid];
    if let Some(answer) = state.answer {
        law_blank_text_says_nothing(answer);
    }
}

/// A message of the agent becomes the answer of its own side conversation exactly if it says
/// something; all other notices that do not end a conversation change nothing at all.
pub proof fn law_messages_become_answers(
    app: AppView,
    thread_id: ThreadId,
    agent_message: Option<String>,
    other: u128,
    taken: bool,
)
    requires
        app.requests.contains_key(thread_id.uuid),
    ensures
        ({
            let after = app.notified(
                thread_id,
                BtwNotification::ItemCompleted { agent_message },
                taken,
            );
            let speaks = agent_message matches Some(text) && says_something(text@);
            &&& speaks ==> {
                &&& after.requests[thread_id.uuid].answer == Some(agent_message->Some_0@)
                &&& after.requests[thread_id.uuid].request_id
                    == app.requests[thread_id.uuid].request_id
                &&& after.requests[thread_id.uuid].parent_thread_id
                    == app.requests[thread_id.uuid].parent_thread_id
                &&& after.requests.dom() == app.requests.dom()
                &&& other != thread_id.uuid && app.requests.contains_key(other)
                    ==> after.requests[other] == app.requests[other]
                &&& after.log == app.log
                &&& after.sent == app.sent
                &&& after.delivered == app.delivered
                &&& after.primary_thread_id == app.primary_thread_id
            }
            &&& !speaks ==> after == app
        }),
        app.notified(thread_id, BtwNotification::Other, taken) == app,
{
    if let Some(text) = agent_message {
        law_blank_text_says_nothing(text@);
    }
    let after = app.notified(thread_id, BtwNotification::ItemCompleted { agent_message }, taken);
    assert(after.requests.dom() =~= app.requests.dom());
}

/// Where several side conversations fail together, each leaves one entry about its own request and
/// threads, with the reason, and one cleanup of its own thread.
pub proof fn law_each_failure_is_its_own(
    requests: Map<u128, BtwView>,
    order: Seq<u128>,
    error: Seq<char>,
    i: int,
)
    requires
        0 <= i < order.len(),
    ensures
        failures(requests, order, error).len() == order.len(),
        failures(requests, order, error)[i] == (BtwLogView::Failed {
            request_id: requests[order[i]].request_id,
            parent_thread_id: Some(requests[order[i]].parent_thread_id),
            thread_id: Some(ThreadId { uuid: order[i] }),
            error,
        }),
        cleanups(order).len() == order.len(),
        cleanups(order)[i] == (EventView::CleanupExternalBtw {
            thread_id: ThreadId { uuid: order[i] },
        }),
{
}

/// Of events that were offered, all were taken if each was, and none if none was; and each that was
/// taken was offered.
pub proof fn law_taken_events_were_offered(events: Seq<EventView>, taken: Seq<bool>)
    requires
        taken.len() == events.len(),
    ensures
        (forall|i: int| 0 <= i < taken.len() ==> taken[i]) ==> taken_of(events, taken) == events,
        (forall|i: int| 0 <= i < taken.len() ==> !taken[i]) ==> taken_of(events, taken).len() == 0,
        forall|event: EventView| #[trigger]
            taken_of(events, taken).contains(event) ==> events.contains(event),
    decreases events.len(),
{
    if events.len() > 0 {
        let n = events.len() - 1;
        let before = events.drop_last();
        let flags = taken.drop_last();
        assert forall|i: int| 0 <= i < n implies flags[i] == taken[i] by {}
        law_taken_events_were_offered(before, flags);
        lemma_taken_of_prefix(before, flags, taken);
        assert(events =~= before.push(events.last()));
        assert forall|event: EventView| #[trigger]
            taken_of(events, taken).contains(event) implies events.contains(event) by {
            let at = taken_of(events, taken).index_of(event);
            assert(events[n] == events.last());
            if at < taken_of(before, taken).len() {
                assert(taken_of(before, flags).contains(event)) by {
                    assert(taken_of(before, flags)[at] == event);
                }
                let j = before.index_of(event);
                assert(events[j] == event);
            }
        }
    }
}

} // verus!
