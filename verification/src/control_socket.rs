//! Requests of the control socket: what each of them is answered, what it sets off inside the
//! application, and what is remembered of it.

use crate::app_command::{
    AppCommand, CommandExecutionApprovalDecision, CommandView, FileChangeApprovalDecision,
    ToolRequestUserInputResponse,
};
use crate::app_event::{AppEvent, AppEventSender, EventView, ExitMode};
use crate::control_response::{
    accepted_result, accepted_view, epoch_result, epoch_view, err_view, ok_view, response_err,
    response_ok, shutdown_result, shutdown_view, ControlResponse, ErrorView, ResponseView,
};
use crate::json::JsonView;
use crate::request_cache::{CacheView, RequestCache, REQUEST_CACHE_CAPACITY};
use crate::text::{
    blank, byte_len, is_blank, law_blank_text_says_nothing, opt_view, same_text, says_something, trim,
    trimmed,
};
use crate::thread_id::{uuid_value, ThreadId};
use vstd::prelude::*;
use vstd::string::*;
use vstd::utf8::*;

verus! {

/// The longest request id that is accepted, in UTF-8 bytes.
pub const REQUEST_ID_MAX_CHARS: usize = 256;

/// The longest side-conversation prompt that is accepted, in UTF-8 bytes.
pub const MAX_EXTERNAL_BTW_PROMPT_BYTES: usize = 4096;

/// What an approval is about.
#[derive(Clone, Copy, Debug, PartialEq, Eq, Structural)]
pub enum ApprovalKind {
    Exec,
    Patch,
}

impl Default for ApprovalKind {
    fn default() -> (r: Self)
        ensures
            r == ApprovalKind::Exec,
    {
        ApprovalKind::Exec
    }
}

/// The payload of a user-input request: decoded, or the text of the decoding error.
#[derive(Clone, Debug, PartialEq, Eq)]
pub enum UserInputPayload {
    Decoded(ToolRequestUserInputResponse),
    Undecodable(String),
}

/// What a client asks for.
#[derive(Clone, Debug, PartialEq, Eq)]
#[allow(inconsistent_fields)]
pub enum ControlCommand {
    GetEpoch,
    SubmitMessage { message: String, thread_id: Option<String> },
    SetThreadName { name: String, thread_id: Option<String> },
    SubmitBtw { prompt: String },
    SubmitApproval {
        id: String,
        decision: String,
        approval_kind: ApprovalKind,
        thread_id: Option<String>,
        turn_id: Option<String>,
    },
    SubmitUserInput {
        id: String,
        response: UserInputPayload,
        thread_id: Option<String>,
    },
    Shutdown { immediate: bool },
}

/// A request of a client.
#[derive(Clone, Debug, PartialEq, Eq)]
pub struct ControlRequest {
    pub request_id: String,
    pub expected_epoch: Option<String>,
    pub command: ControlCommand,
}

/// One connection to a listener generation: its epoch, and the way into the application.
pub struct ControlState {
    pub epoch: String,
    pub app_event_tx: AppEventSender,
}

impl ControlState {
    /// The events that this connection has offered to the application, in order.
    pub open spec fn sent(self) -> Seq<EventView> {
        self.app_event_tx.sent()
    }

    /// Those of them that the application's channel took.
    pub open spec fn delivered(self) -> Seq<EventView> {
        self.app_event_tx.delivered()
    }

    pub fn new(app_event_tx: AppEventSender, epoch: String) -> (r: ControlState)
        ensures
            r.epoch == epoch,
            r.app_event_tx == app_event_tx,
    {
        ControlState { epoch, app_event_tx }
    }
}

/// The name of a thread without surrounding white space; nothing is left of a blank one.
pub open spec fn normalized_name(name: Seq<char>) -> Option<Seq<char>> {
    if blank(name) {
        None
    } else {
        Some(trimmed(name))
    }
}

/// The name of a thread without surrounding white space; nothing is left of a blank one.
pub fn normalize_thread_name(name: &str) -> (r: Option<String>)
    ensures
        opt_view(r) == normalized_name(name@),
{
    let kept = trim(name);
    if kept.is_empty() {
        None
    } else {
        Some(kept.to_string())
    }
}

/// What an optional thread id denotes: no thread, a thread, or nothing valid.
pub open spec fn target_thread(raw: Option<Seq<char>>) -> Result<Option<ThreadId>, Seq<char>> {
    match raw {
        None => Ok(None),
        Some(text) => match uuid_value(text) {
            Some(uuid) => Ok(Some(ThreadId { uuid })),
            None => Err("thread_id is not a valid UUID: "@ + text),
        },
    }
}

/// What an optional thread id denotes: no thread, a thread, or nothing valid.
pub fn parse_thread_id(raw: Option<String>) -> (r: Result<Option<ThreadId>, String>)
    ensures
        match target_thread(opt_view(raw)) {
            Ok(thread_id) => r == Ok::<Option<ThreadId>, String>(thread_id),
            Err(message) => r matches Err(text) && text@ == message,
        },
{
    match raw {
        Some(value) => match ThreadId::from_string(value.as_str()) {
            Some(thread_id) => Ok(Some(thread_id)),
            None => {
                let mut message = "thread_id is not a valid UUID: ".to_string();
                message.append(value.as_str());
                Err(message)
            },
        },
        None => Ok(None),
    }
}

/// The verdict that a word stands for, for commands.
pub open spec fn exec_decision(raw: Seq<char>) -> Option<CommandExecutionApprovalDecision> {
    if raw == "approved"@ {
        Some(CommandExecutionApprovalDecision::Accept)
    } else if raw == "approved_for_session"@ {
        Some(CommandExecutionApprovalDecision::AcceptForSession)
    } else if raw == "denied"@ {
        Some(CommandExecutionApprovalDecision::Decline)
    } else if raw == "abort"@ {
        Some(CommandExecutionApprovalDecision::Cancel)
    } else {
        None
    }
}

/// The verdict that a word stands for, for file changes.
pub open spec fn patch_decision(raw: Seq<char>) -> Option<FileChangeApprovalDecision> {
    if raw == "approved"@ {
        Some(FileChangeApprovalDecision::Accept)
    } else if raw == "approved_for_session"@ {
        Some(FileChangeApprovalDecision::AcceptForSession)
    } else if raw == "denied"@ {
        Some(FileChangeApprovalDecision::Decline)
    } else if raw == "abort"@ {
        Some(FileChangeApprovalDecision::Cancel)
    } else {
        None
    }
}

pub fn parse_exec_approval_decision(raw: &str) -> (r: Option<CommandExecutionApprovalDecision>)
    ensures
        r == exec_decision(raw@),
{
    if same_text(raw, "approved") {
        Some(CommandExecutionApprovalDecision::Accept)
    } else if same_text(raw, "approved_for_session") {
        Some(CommandExecutionApprovalDecision::AcceptForSession)
    } else if same_text(raw, "denied") {
        Some(CommandExecutionApprovalDecision::Decline)
    } else if same_text(raw, "abort") {
        Some(CommandExecutionApprovalDecision::Cancel)
    } else {
        None
    }
}

pub fn parse_patch_approval_decision(raw: &str) -> (r: Option<FileChangeApprovalDecision>)
    ensures
        r == patch_decision(raw@),
{
    if same_text(raw, "approved") {
        Some(FileChangeApprovalDecision::Accept)
    } else if same_text(raw, "approved_for_session") {
        Some(FileChangeApprovalDecision::AcceptForSession)
    } else if same_text(raw, "denied") {
        Some(FileChangeApprovalDecision::Decline)
    } else if same_text(raw, "abort") {
        Some(FileChangeApprovalDecision::Cancel)
    } else {
        None
    }
}

/// Each of the four words stands for its own verdict, for commands as for file changes, and no other
/// word stands for one.
pub proof fn law_words_stand_for_verdicts(raw: Seq<char>)
    ensures
        exec_decision(raw) == Some(CommandExecutionApprovalDecision::Accept) <==> raw
            == "approved"@,
        exec_decision(raw) == Some(CommandExecutionApprovalDecision::AcceptForSession) <==> raw
            == "approved_for_session"@,
        exec_decision(raw) == Some(CommandExecutionApprovalDecision::Decline) <==> raw == "denied"@,
        exec_decision(raw) == Some(CommandExecutionApprovalDecision::Cancel) <==> raw == "abort"@,
        patch_decision(raw) == Some(FileChangeApprovalDecision::Accept) <==> raw == "approved"@,
        patch_decision(raw) == Some(FileChangeApprovalDecision::AcceptForSession) <==> raw
            == "approved_for_session"@,
        patch_decision(raw) == Some(FileChangeApprovalDecision::Decline) <==> raw == "denied"@,
        patch_decision(raw) == Some(FileChangeApprovalDecision::Cancel) <==> raw == "abort"@,
{
    lemma_verdict_words();
}

/// A thread id denotes the thread of its UUID, a missing one denotes none, and one that is no UUID is
/// an error which repeats it.
pub proof fn law_thread_ids_denote_their_uuid(text: Seq<char>)
    ensures
        target_thread(None) == Ok::<Option<ThreadId>, Seq<char>>(None),
        uuid_value(text) matches Some(uuid) ==> target_thread(Some(text)) == Ok::<
            Option<ThreadId>,
            Seq<char>,
        >(Some(ThreadId { uuid })),
        uuid_value(text) is None ==> target_thread(Some(text)) == Err::<
            Option<ThreadId>,
            Seq<char>,
        >("thread_id is not a valid UUID: "@ + text),
{
}

/// What is kept of a name is what stands between the white space on either side; nothing is kept of a
/// name that says nothing.
pub proof fn law_names_are_kept_trimmed(name: Seq<char>)
    ensures
        !says_something(name) ==> normalized_name(name) is None,
        says_something(name) ==> exists|start: int, end: int|
            {
                &&& #[trigger] crate::text::is_visible_middle(name, start, end)
                &&& start < end
                &&& normalized_name(name) == Some(name.subrange(start, end))
            },
{
    law_blank_text_says_nothing(name);
    crate::text::law_trimming_leaves_the_visible_middle(name);
    if says_something(name) {
        let (start, end) = choose|start: int, end: int| #[trigger]
            crate::text::is_visible_middle(name, start, end) && trimmed(name) == name.subrange(
                start,
                end,
            );
        assert(crate::text::is_visible_middle(name, start, end));
        let i = choose|i: int| 0 <= i < name.len() && !crate::text::is_white(#[trigger] name[i]);
        assert(start <= i < end);
    }
}

/// The event that carries a command: to its thread where it names one, else to the current one.
pub open spec fn command_event(thread_id: Option<ThreadId>, op: CommandView) -> EventView {
    match thread_id {
        Some(thread_id) => EventView::SubmitThreadOp { thread_id, op },
        None => EventView::CodexOp(op),
    }
}

/// What becomes of a command: an answer at once, or an event to dispatch with the answer that is
/// given once the event was taken.
#[verifier::ext_equal]
pub enum PlanView {
    Answer(ResponseView),
    Dispatch { event: EventView, accepted: ResponseView },
}

/// The plan that dispatches a command and reports the operation as accepted.
pub open spec fn dispatch_plan(
    id: Seq<char>,
    epoch: Seq<char>,
    event: EventView,
    operation: Seq<char>,
) -> PlanView {
    PlanView::Dispatch { event, accepted: ok_view(id, epoch, accepted_view(operation)) }
}

/// The plan that turns a request down as invalid.
pub open spec fn invalid_plan(id: Seq<char>, epoch: Seq<char>, message: Seq<char>) -> PlanView {
    PlanView::Answer(err_view(id, epoch, "invalid_request"@, message))
}

/// What becomes of each command.
pub open spec fn plan_view(id: Seq<char>, epoch: Seq<char>, command: ControlCommand) -> PlanView {
    match command {
        ControlCommand::GetEpoch => PlanView::Answer(ok_view(id, epoch, epoch_view(epoch))),
        ControlCommand::SubmitMessage { message, thread_id } => if blank(message@) {
            invalid_plan(id, epoch, "message must be non-empty"@)
        } else {
            match target_thread(opt_view(thread_id)) {
                Ok(Some(_)) => PlanView::Answer(
                    err_view(
                        id,
                        epoch,
                        "unsupported_request"@,
                        "thread_id is not supported for submit_message in this build"@,
                    ),
                ),
                Ok(None) => dispatch_plan(
                    id,
                    epoch,
                    EventView::SubmitExternalLiteralUserMessage { text: message@ },
                    "submit_message"@,
                ),
                Err(error) => invalid_plan(id, epoch, error),
            }
        },
        ControlCommand::SetThreadName { name, thread_id } => match normalized_name(name@) {
            Some(kept) => match target_thread(opt_view(thread_id)) {
                Ok(target) => dispatch_plan(
                    id,
                    epoch,
                    command_event(target, CommandView::SetThreadName { name: kept }),
                    "set_thread_name"@,
                ),
                Err(error) => invalid_plan(id, epoch, error),
            },
            None => invalid_plan(id, epoch, "thread name must not be empty"@),
        },
        ControlCommand::SubmitBtw { prompt } => if blank(prompt@) {
            invalid_plan(id, epoch, "prompt must be non-empty"@)
        } else if encode_utf8(prompt@).len() > MAX_EXTERNAL_BTW_PROMPT_BYTES {
            invalid_plan(id, epoch, "prompt exceeds 4096 UTF-8 bytes"@)
        } else {
            dispatch_plan(
                id,
                epoch,
                EventView::StartExternalBtw { request_id: id, prompt: prompt@ },
                "submit_btw"@,
            )
        },
        ControlCommand::SubmitApproval {
            id: call_id,
            decision,
            approval_kind,
            thread_id,
            turn_id,
        } => match target_thread(opt_view(thread_id)) {
            Ok(target) => match approval_kind {
                ApprovalKind::Exec => match exec_decision(decision@) {
                    Some(verdict) => dispatch_plan(
                        id,
                        epoch,
                        command_event(
                            target,
                            CommandView::ExecApproval {
                                id: call_id@,
                                turn_id: opt_view(turn_id),
                                decision: verdict,
                            },
                        ),
                        "submit_approval"@,
                    ),
                    None => invalid_plan(
                        id,
                        epoch,
                        "exec approval decision must be one of: approved, approved_for_session, denied, abort"@,
                    ),
                },
                ApprovalKind::Patch => match patch_decision(decision@) {
                    Some(verdict) => dispatch_plan(
                        id,
                        epoch,
                        command_event(
                            target,
                            CommandView::PatchApproval { id: call_id@, decision: verdict },
                        ),
                        "submit_approval"@,
                    ),
                    None => invalid_plan(
                        id,
                        epoch,
                        "patch approval decision must be one of: approved, approved_for_session, denied, abort"@,
                    ),
                },
            },
            Err(error) => invalid_plan(id, epoch, error),
        },
        ControlCommand::SubmitUserInput { id: call_id, response, thread_id } => match target_thread(
            opt_view(thread_id),
        ) {
            Ok(target) => match response {
                UserInputPayload::Decoded(parsed) => dispatch_plan(
                    id,
                    epoch,
                    command_event(
                        target,
                        CommandView::UserInputAnswer { id: call_id@, response: parsed },
                    ),
                    "submit_user_input"@,
                ),
                UserInputPayload::Undecodable(error) => invalid_plan(
                    id,
                    epoch,
                    "response is invalid: "@ + error@,
                ),
            },
            Err(error) => invalid_plan(id, epoch, error),
        },
        ControlCommand::Shutdown { immediate } => PlanView::Dispatch {
            event: EventView::Exit(
                if immediate {
                    ExitMode::Immediate
                } else {
                    ExitMode::ShutdownFirst
                },
            ),
            accepted: ok_view(id, epoch, shutdown_view(immediate)),
        },
    }
}

/// What becomes of a command.
pub enum Plan {
    Answer(ControlResponse),
    Dispatch { event: AppEvent, accepted: ControlResponse },
}

impl View for Plan {
    type V = PlanView;

    open spec fn view(&self) -> PlanView {
        match self {
            Plan::Answer(response) => PlanView::Answer(response@),
            Plan::Dispatch { event, accepted } => PlanView::Dispatch {
                event: event@,
                accepted: accepted@,
            },
        }
    }
}

fn invalid(id: &str, epoch: &str, message: &str) -> (r: Plan)
    ensures
        r@ == invalid_plan(id@, epoch@, message@),
{
    Plan::Answer(response_err(id, epoch, "invalid_request", message))
}

fn dispatch(id: &str, epoch: &str, event: AppEvent, operation: &str) -> (r: Plan)
    ensures
        r@ == dispatch_plan(id@, epoch@, event@, operation@),
{
    Plan::Dispatch { event, accepted: response_ok(id, epoch, accepted_result(operation)) }
}

/// The event that carries a command: to its thread where it names one, else to the current one.
pub fn dispatch_command(thread_id: Option<ThreadId>, op: AppCommand) -> (r: AppEvent)
    ensures
        r@ == command_event(thread_id, op@),
{
    match thread_id {
        Some(thread_id) => AppEvent::SubmitThreadOp { thread_id, op },
        None => AppEvent::CodexOp(op),
    }
}

/// What becomes of a command.
pub fn plan_command(id: &str, epoch: &str, command: ControlCommand) -> (r: Plan)
    ensures
        r@ == plan_view(id@, epoch@, command),
{
    match command {
        ControlCommand::GetEpoch => Plan::Answer(response_ok(id, epoch, epoch_result(epoch))),
        ControlCommand::SubmitMessage { message, thread_id } => {
            if is_blank(message.as_str()) {
                return invalid(id, epoch, "message must be non-empty");
            }
            match parse_thread_id(thread_id) {
                Ok(Some(_)) => Plan::Answer(
                    response_err(
                        id,
                        epoch,
                        "unsupported_request",
                        "thread_id is not supported for submit_message in this build",
                    ),
                ),
                Ok(None) => dispatch(
                    id,
                    epoch,
                    AppEvent::SubmitExternalLiteralUserMessage { text: message },
                    "submit_message",
                ),
                Err(error) => invalid(id, epoch, error.as_str()),
            }
        },
        ControlCommand::SetThreadName { name, thread_id } => match normalize_thread_name(
            name.as_str(),
        ) {
            Some(name) => match parse_thread_id(thread_id) {
                Ok(thread_id) => dispatch(
                    id,
                    epoch,
                    dispatch_command(thread_id, AppCommand::SetThreadName { name }),
                    "set_thread_name",
                ),
                Err(error) => invalid(id, epoch, error.as_str()),
            },
            None => invalid(id, epoch, "thread name must not be empty"),
        },
        ControlCommand::SubmitBtw { prompt } => {
            if is_blank(prompt.as_str()) {
                return invalid(id, epoch, "prompt must be non-empty");
            }
            if byte_len(prompt.as_str()) > MAX_EXTERNAL_BTW_PROMPT_BYTES {
                return invalid(id, epoch, "prompt exceeds 4096 UTF-8 bytes");
            }
            dispatch(
                id,
                epoch,
                AppEvent::StartExternalBtw { request_id: id.to_string(), prompt },
                "submit_btw",
            )
        },
        ControlCommand::SubmitApproval {
            id: call_id,
            decision,
            approval_kind,
            thread_id,
            turn_id,
        } => match parse_thread_id(thread_id) {
            Ok(thread_id) => match approval_kind {
                ApprovalKind::Exec => match parse_exec_approval_decision(decision.as_str()) {
                    Some(decision) => dispatch(
                        id,
                        epoch,
                        dispatch_command(
                            thread_id,
                            AppCommand::ExecApproval { id: call_id, turn_id, decision },
                        ),
                        "submit_approval",
                    ),
                    None => invalid(
                        id,
                        epoch,
                        "exec approval decision must be one of: approved, approved_for_session, denied, abort",
                    ),
                },
                ApprovalKind::Patch => match parse_patch_approval_decision(decision.as_str()) {
                    Some(decision) => dispatch(
                        id,
                        epoch,
                        dispatch_command(
                            thread_id,
                            AppCommand::PatchApproval { id: call_id, decision },
                        ),
                        "submit_approval",
                    ),
                    None => invalid(
                        id,
                        epoch,
                        "patch approval decision must be one of: approved, approved_for_session, denied, abort",
                    ),
                },
            },
            Err(error) => invalid(id, epoch, error.as_str()),
        },
        ControlCommand::SubmitUserInput { id: call_id, response, thread_id } => {
            match parse_thread_id(thread_id) {
                Ok(thread_id) => match response {
                    UserInputPayload::Decoded(response) => dispatch(
                        id,
                        epoch,
                        dispatch_command(
                            thread_id,
                            AppCommand::UserInputAnswer { id: call_id, response },
                        ),
                        "submit_user_input",
                    ),
                    UserInputPayload::Undecodable(error) => {
                        let mut message = "response is invalid: ".to_string();
                        message.append(error.as_str());
                        invalid(id, epoch, message.as_str())
                    },
                },
                Err(error) => invalid(id, epoch, error.as_str()),
            }
        },
        ControlCommand::Shutdown { immediate } => {
            let exit_mode = if immediate {
                ExitMode::Immediate
            } else {
                ExitMode::ShutdownFirst
            };
            Plan::Dispatch {
                event: AppEvent::Exit(exit_mode),
                accepted: response_ok(id, epoch, shutdown_result(immediate)),
            }
        },
    }
}

/// The answer to a request whose event found nobody to take it.
pub open spec fn closed_view(id: Seq<char>, epoch: Seq<char>) -> ResponseView {
    err_view(
        id,
        epoch,
        "event_channel_closed"@,
        "control socket is unavailable; app event channel is closed"@,
    )
}

/// Hands an event to the application.
pub fn dispatch_app_event(state: &mut ControlState, event: AppEvent) -> (r: Result<(), String>)
    ensures
        final(state).epoch == old(state).epoch,
        final(state).sent() == old(state).sent().push(event@),
        r is Ok ==> final(state).delivered() == old(state).delivered().push(event@),
        r matches Err(message) ==> message@
            == "control socket is unavailable; app event channel is closed"@
            && final(state).delivered() == old(state).delivered(),
{
    match state.app_event_tx.send(event) {
        Ok(()) => Ok(()),
        Err(_) => Err("control socket is unavailable; app event channel is closed".to_string()),
    }
}

/// The answer once it is known whether the event was taken.
pub fn conclude_dispatch(
    id: &str,
    epoch: &str,
    accepted: ControlResponse,
    outcome: Result<(), String>,
) -> (r: ControlResponse)
    ensures
        outcome is Ok ==> r == accepted,
        outcome matches Err(message) ==> r@ == err_view(
            id@,
            epoch@,
            "event_channel_closed"@,
            message@,
        ),
{
    match outcome {
        Ok(()) => accepted,
        Err(message) => response_err(id, epoch, "event_channel_closed", message.as_str()),
    }
}

/// The answer to a request without a usable id. It names no request.
pub open spec fn id_refusal(request_id: Seq<char>, epoch: Seq<char>) -> Option<ResponseView> {
    if blank(request_id) {
        Some(
            err_view(""@, epoch, "invalid_request"@, "request_id must be a non-empty string"@),
        )
    } else if encode_utf8(request_id).len() > REQUEST_ID_MAX_CHARS {
        Some(
            err_view(
                ""@,
                epoch,
                "invalid_request"@,
                "request_id exceeds max length of 256 characters"@,
            ),
        )
    } else {
        None
    }
}

/// The answer to a request without a usable id.
pub fn check_request_id(request_id: &str, epoch: &str) -> (r: Option<ControlResponse>)
    ensures
        r is Some <==> id_refusal(request_id@, epoch@) is Some,
        r matches Some(response) ==> id_refusal(request_id@, epoch@) == Some(response@),
{
    if is_blank(request_id) {
        return Some(
            response_err("", epoch, "invalid_request", "request_id must be a non-empty string"),
        );
    }
    if byte_len(request_id) > REQUEST_ID_MAX_CHARS {
        return Some(
            response_err(
                "",
                epoch,
                "invalid_request",
                "request_id exceeds max length of 256 characters",
            ),
        );
    }
    None
}

/// The answer to a request that was meant for another epoch.
pub open spec fn stale_refusal(
    request_id: Seq<char>,
    expected_epoch: Option<Seq<char>>,
    epoch: Seq<char>,
) -> Option<ResponseView> {
    match expected_epoch {
        Some(expected) => if expected == epoch {
            None
        } else {
            Some(
                err_view(
                    request_id,
                    epoch,
                    "stale_epoch"@,
                    "expected_epoch="@ + expected + " does not match current epoch="@ + epoch,
                ),
            )
        },
        None => None,
    }
}

/// The answer to a request that was meant for another epoch.
pub fn check_expected_epoch(
    request_id: &str,
    expected_epoch: &Option<String>,
    epoch: &str,
) -> (r: Option<ControlResponse>)
    ensures
        r is Some <==> stale_refusal(request_id@, opt_view(*expected_epoch), epoch@) is Some,
        r matches Some(response) ==> stale_refusal(request_id@, opt_view(*expected_epoch), epoch@)
            == Some(response@),
{
    match expected_epoch {
        Some(expected) => {
            if same_text(expected.as_str(), epoch) {
                return None;
            }
            let mut message = "expected_epoch=".to_string();
            message.append(expected.as_str());
            message.append(" does not match current epoch=");
            message.append(epoch);
            Some(response_err(request_id, epoch, "stale_epoch", message.as_str()))
        },
        None => None,
    }
}

/// The remembered answer that a request is given again. A query for the epoch is never answered
/// with the epoch of an earlier listener.
pub open spec fn replay(
    cache: CacheView,
    epoch: Seq<char>,
    request: ControlRequest,
) -> Option<ResponseView> {
    if cache.entries.contains_key(request.request_id@) && (request.command is GetEpoch
        ==> cache.entries[request.request_id@].epoch == epoch) {
        Some(cache.entries[request.request_id@])
    } else {
        None
    }
}

/// What a request is due.
#[verifier::ext_equal]
pub enum Due {
    /// Turned down without a trace.
    Refusal(ResponseView),
    /// Answered as before.
    Replay(ResponseView),
    /// To be carried out.
    Fresh(PlanView),
}

/// What a request is due, given the epoch and what is remembered.
pub open spec fn due(epoch: Seq<char>, cache: CacheView, request: ControlRequest) -> Due {
    match id_refusal(request.request_id@, epoch) {
        Some(refusal) => Due::Refusal(refusal),
        None => match stale_refusal(request.request_id@, opt_view(request.expected_epoch), epoch) {
            Some(refusal) => Due::Refusal(refusal),
            None => match replay(cache, epoch, request) {
                Some(response) => Due::Replay(response),
                None => Due::Fresh(plan_view(request.request_id@, epoch, request.command)),
            },
        },
    }
}

/// What a request leaves behind: the answer, the cache, the events offered to the application and
/// those of them that it took. A request that sets off an event is answered as accepted if the
/// event was taken, and as undeliverable if it was not.
pub open spec fn handled(
    epoch: Seq<char>,
    before: CacheView,
    request: ControlRequest,
    response: ResponseView,
    after: CacheView,
    events: Seq<EventView>,
    delivered: Seq<EventView>,
) -> bool {
    match due(epoch, before, request) {
        Due::Refusal(refusal) => {
            &&& response == refusal
            &&& after == before
            &&& events.len() == 0
            &&& delivered.len() == 0
        },
        Due::Replay(cached) => {
            &&& response == cached
            &&& after == before
            &&& events.len() == 0
            &&& delivered.len() == 0
        },
        Due::Fresh(PlanView::Answer(answer)) => {
            &&& response == answer
            &&& after == before.inserted(request.request_id@, response)
            &&& events.len() == 0
            &&& delivered.len() == 0
        },
        Due::Fresh(PlanView::Dispatch { event, accepted }) => {
            &&& delivered == seq![event] || delivered.len() == 0
            &&& response == (if delivered.len() > 0 {
                accepted
            } else {
                closed_view(request.request_id@, epoch)
            })
            &&& after == before.inserted(request.request_id@, response)
            &&& events == seq![event]
        },
    }
}

/// Answers a request, sets off its event, and remembers the answer.
pub fn process_request(
    state: &mut ControlState,
    cache: &mut RequestCache,
    request: ControlRequest,
) -> (response: ControlResponse)
    requires
        old(cache).wf(),
    ensures
        final(cache).wf(),
        final(state).epoch == old(state).epoch,
        exists|events: Seq<EventView>, delivered: Seq<EventView>|
            {
                &&& final(state).sent() == old(state).sent() + events
                &&& final(state).delivered() == old(state).delivered() + delivered
                &&& #[trigger] handled(
                    old(state).epoch@,
                    old(cache)@,
                    request,
                    response@,
                    final(cache)@,
                    events,
                    delivered,
                )
            },
{
    let ghost epoch = state.epoch@;
    let ghost before = cache@;
    let ghost sent = state.sent();
    let ghost taken = state.delivered();
    let ghost none = Seq::<EventView>::empty();
    assert(sent + none =~= sent);
    assert(taken + none =~= taken);
    if let Some(refusal) = check_request_id(request.request_id.as_str(), state.epoch.as_str()) {
        assert(handled(epoch, before, request, refusal@, cache@, none, none));
        return refusal;
    }
    if let Some(refusal) = check_expected_epoch(
        request.request_id.as_str(),
        &request.expected_epoch,
        state.epoch.as_str(),
    ) {
        assert(handled(epoch, before, request, refusal@, cache@, none, none));
        return refusal;
    }
    if let Some(cached) = cache.get(request.request_id.as_str()) {
        let current = match request.command {
            ControlCommand::GetEpoch => same_text(cached.epoch.as_str(), state.epoch.as_str()),
            _ => true,
        };
        if current {
            assert(handled(epoch, before, request, cached@, cache@, none, none));
            return cached;
        }
    }
    let request_id = request.request_id;
    let plan = plan_command(request_id.as_str(), state.epoch.as_str(), request.command);
    let ghost mut events = none;
    let ghost mut delivered = none;
    let response = match plan {
        Plan::Answer(response) => response,
        Plan::Dispatch { event, accepted } => {
            let outcome = dispatch_app_event(state, event);
            proof {
                events = seq![event@];
                assert(sent + events =~= sent.push(event@));
                if outcome is Ok {
                    delivered = seq![event@];
                    assert(taken + delivered =~= taken.push(event@));
                }
            }
            conclude_dispatch(request_id.as_str(), state.epoch.as_str(), accepted, outcome)
        },
    };
    cache.insert(request_id, response.clone());
    assert(handled(epoch, before, request, response@, cache@, events, delivered));
    response
}

/// The answer where the cache cannot be reached: the id is still checked first.
pub open spec fn without_cache_view(request: ControlRequest, epoch: Seq<char>) -> ResponseView {
    match id_refusal(request.request_id@, epoch) {
        Some(refusal) => refusal,
        None => err_view(
            request.request_id@,
            epoch,
            "internal_error"@,
            "control cache lock poisoned"@,
        ),
    }
}

/// The answer where the cache cannot be reached: the id is still checked first.
pub fn process_request_without_cache(epoch: &str, request: &ControlRequest) -> (response:
    ControlResponse)
    ensures
        response@ == without_cache_view(*request, epoch@),
{
    match check_request_id(request.request_id.as_str(), epoch) {
        Some(refusal) => refusal,
        None => response_err(
            request.request_id.as_str(),
            epoch,
            "internal_error",
            "control cache lock poisoned",
        ),
    }
}

/// An answer that says one thing: a result where the request was carried out, an error where it
/// was not.
pub open spec fn coherent(response: ResponseView) -> bool {
    &&& response.ok <==> response.result is Some
    &&& response.ok <==> response.error is None
}

/// A cache that holds under each id a coherent answer to that id.
pub open spec fn faithful(cache: CacheView) -> bool {
    forall|id: Seq<char>| #[trigger]
        cache.entries.contains_key(id) ==> coherent(cache.entries[id])
            && cache.entries[id].request_id == id
}

/// What a plan answers: coherent, under the id and epoch that it was made for.
proof fn lemma_plan_answers(id: Seq<char>, epoch: Seq<char>, command: ControlCommand)
    ensures
        match plan_view(id, epoch, command) {
            PlanView::Answer(response) => coherent(response) && response.request_id == id
                && response.epoch == epoch,
            PlanView::Dispatch { event, accepted } => coherent(accepted) && accepted.ok
                && accepted.request_id == id && accepted.epoch == epoch,
        },
{
}

/// A thread name that was normalized is normal, and is never blank.
pub proof fn law_normalized_names_stay(name: Seq<char>)
    ensures
        normalized_name(name) matches Some(kept) ==> normalized_name(kept) == Some(kept)
            && kept.len() > 0,
{
    crate::text::lemma_trimmed_idempotent(name);
}

/// A request that was not turned down is answered the same way when it is repeated, and the
/// repetition sets nothing off and changes nothing that is remembered.
pub proof fn law_repeated_request_is_answered_once(
    epoch: Seq<char>,
    start: CacheView,
    request: ControlRequest,
    first: ResponseView,
    between: CacheView,
    first_events: Seq<EventView>,
    first_delivered: Seq<EventView>,
    second: ResponseView,
    end: CacheView,
    second_events: Seq<EventView>,
    second_delivered: Seq<EventView>,
)
    requires
        start.wf(),
        !(due(epoch, start, request) is Refusal),
        handled(epoch, start, request, first, between, first_events, first_delivered),
        handled(epoch, between, request, second, end, second_events, second_delivered),
    ensures
        second == first,
        end == between,
        second_events.len() == 0,
        second_delivered.len() == 0,
{
    lemma_plan_answers(request.request_id@, epoch, request.command);
    crate::request_cache::law_inserted_answer_is_found(start, request.request_id@, first);
}

/// One request that was handled at a listener, and what came of it.
#[verifier::ext_equal]
pub struct Exchange {
    pub epoch: Seq<char>,
    pub request: ControlRequest,
    pub response: ResponseView,
    pub after: CacheView,
    pub events: Seq<EventView>,
    pub delivered: Seq<EventView>,
}

impl Exchange {
    /// Whether the request was handled so, given what was remembered before.
    pub open spec fn follows(self, before: CacheView) -> bool {
        handled(
            self.epoch,
            before,
            self.request,
            self.response,
            self.after,
            self.events,
            self.delivered,
        )
    }

    /// The id of the request.
    pub open spec fn id(self) -> Seq<char> {
        self.request.request_id@
    }
}

/// What is remembered after a run of requests.
pub open spec fn remembered(start: CacheView, run: Seq<Exchange>) -> CacheView {
    if run.len() == 0 {
        start
    } else {
        run.last().after
    }
}

/// Whether requests were handled one after the other, at whatever listeners.
pub open spec fn is_run(start: CacheView, run: Seq<Exchange>) -> bool
    decreases run.len(),
{
    run.len() == 0 || is_run(start, run.drop_last()) && run.last().follows(
        remembered(start, run.drop_last()),
    )
}

/// The number of ids that a run of requests brought in anew.
pub open spec fn new_ids(start: CacheView, run: Seq<Exchange>) -> nat
    decreases run.len(),
{
    if run.len() == 0 {
        0
    } else {
        let before = remembered(start, run.drop_last());
        let last = run.last();
        new_ids(start, run.drop_last()) + if last.after.entries.contains_key(last.id())
            && !before.entries.contains_key(last.id()) {
            1nat
        } else {
            0nat
        }
    }
}

/// Whether the queries for the epoch under an id, if there are any, all went to one listener.
pub open spec fn queries_stay(run: Seq<Exchange>, id: Seq<char>, epoch: Seq<char>) -> bool {
    forall|i: int|
        0 <= i < run.len() && (#[trigger] run[i]).id() == id && run[i].request.command is GetEpoch
            ==> run[i].epoch == epoch
}

proof fn lemma_run_keeps_answer(
    start: CacheView,
    id: Seq<char>,
    response: ResponseView,
    run: Seq<Exchange>,
)
    requires
        start.wf(),
        start.entries.contains_key(id),
        start.entries[id] == response,
        crate::request_cache::newer_ids(start, id) == 0,
        is_run(start, run),
        new_ids(start, run) < REQUEST_CACHE_CAPACITY,
        queries_stay(run, id, response.epoch),
    ensures
        remembered(start, run).wf(),
        remembered(start, run).entries.contains_key(id),
        remembered(start, run).entries[id] == response,
        crate::request_cache::newer_ids(remembered(start, run), id) == new_ids(start, run),
    decreases run.len(),
{
    if run.len() > 0 {
        let rest = run.drop_last();
        let last = run.last();
        assert forall|i: int|
            0 <= i < rest.len() && (#[trigger] rest[i]).id() == id
                && rest[i].request.command is GetEpoch implies rest[i].epoch == response.epoch by {
            assert(rest[i] == run[i]);
        }
        assert(last == run[run.len() - 1]);
        lemma_run_keeps_answer(start, id, response, rest);
        let before = remembered(start, rest);
        if due(last.epoch, before, last.request) is Fresh {
            assert(last.id() != id);
            crate::request_cache::law_inserted_answer_is_found(before, last.id(), last.response);
            crate::request_cache::law_answers_last_while_few_are_newer(
                before,
                id,
                last.id(),
                last.response,
            );
        }
    }
}

/// An id is answered once: whatever is asked under an id that was answered, the first answer comes
/// again, be it an error, and nothing is set off, as long as fewer new ids came in between than the
/// cache holds. This holds across listeners, but for queries for the epoch.
pub proof fn law_id_is_answered_once(
    start: CacheView,
    first: Exchange,
    between: Seq<Exchange>,
    second: Exchange,
)
    requires
        start.wf(),
        !start.entries.contains_key(first.id()),
        first.follows(start),
        !(due(first.epoch, start, first.request) is Refusal),
        is_run(first.after, between),
        new_ids(first.after, between) < REQUEST_CACHE_CAPACITY,
        queries_stay(between, first.id(), first.epoch),
        second.id() == first.id(),
        second.follows(remembered(first.after, between)),
        stale_refusal(second.id(), opt_view(second.request.expected_epoch), second.epoch) is None,
        second.request.command is GetEpoch ==> second.epoch == first.epoch,
    ensures
        second.response == first.response,
        second.after == remembered(first.after, between),
        second.events.len() == 0,
        second.delivered.len() == 0,
{
    let id = first.id();
    lemma_plan_answers(id, first.epoch, first.request.command);
    crate::request_cache::law_inserted_answer_is_found(start, id, first.response);
    crate::request_cache::law_new_answer_is_the_newest(start, id, first.response);
    lemma_run_keeps_answer(first.after, id, first.response, between);
}

/// A query for the epoch is always answered with the current epoch, whatever is remembered.
pub proof fn law_get_epoch_is_current(
    epoch: Seq<char>,
    before: CacheView,
    request: ControlRequest,
    response: ResponseView,
    after: CacheView,
    events: Seq<EventView>,
    delivered: Seq<EventView>,
)
    requires
        request.command is GetEpoch,
        handled(epoch, before, request, response, after, events, delivered),
    ensures
        response.epoch == epoch,
        events.len() == 0,
{
    lemma_plan_answers(request.request_id@, epoch, request.command);
}

/// Where an id was used for an earlier epoch only, a query for the epoch under that id gets the
/// epoch of today as its result.
pub proof fn law_get_epoch_is_fresh_across_listeners(
    epoch: Seq<char>,
    before: CacheView,
    request: ControlRequest,
    response: ResponseView,
    after: CacheView,
    events: Seq<EventView>,
    delivered: Seq<EventView>,
)
    requires
        request.command is GetEpoch,
        before.entries.contains_key(request.request_id@),
        before.entries[request.request_id@].epoch != epoch,
        !(due(epoch, before, request) is Refusal),
        handled(epoch, before, request, response, after, events, delivered),
    ensures
        response == ok_view(request.request_id@, epoch, epoch_view(epoch)),
{
}

/// A request for another epoch is turned down even where an answer to its id is remembered; it
/// sets nothing off and leaves no trace.
pub proof fn law_stale_request_is_turned_down(
    epoch: Seq<char>,
    before: CacheView,
    request: ControlRequest,
    response: ResponseView,
    after: CacheView,
    events: Seq<EventView>,
    delivered: Seq<EventView>,
)
    requires
        id_refusal(request.request_id@, epoch) is None,
        request.expected_epoch matches Some(expected) && expected@ != epoch,
        handled(epoch, before, request, response, after, events, delivered),
    ensures
        !response.ok,
        response.error matches Some(error) && error.code == "stale_epoch"@,
        after == before,
        events.len() == 0,
{
}

/// A request that was turned down for its epoch is still carried out when it is sent again for
/// the right one.
pub proof fn law_retry_after_stale_is_carried_out(
    epoch: Seq<char>,
    before: CacheView,
    stale: ControlRequest,
    response: ResponseView,
    after: CacheView,
    events: Seq<EventView>,
    delivered: Seq<EventView>,
    retry: ControlRequest,
)
    requires
        stale_refusal(stale.request_id@, opt_view(stale.expected_epoch), epoch) is Some,
        handled(epoch, before, stale, response, after, events, delivered),
        retry.request_id@ == stale.request_id@,
        id_refusal(stale.request_id@, epoch) is None,
        opt_view(retry.expected_epoch) == Some(epoch) || retry.expected_epoch is None,
        !before.entries.contains_key(stale.request_id@),
    ensures
        due(epoch, after, retry) == Due::Fresh(
            plan_view(retry.request_id@, epoch, retry.command),
        ),
{
}

/// No request sets off more than one event, and one that is refused, replayed or answered at
/// once sets off none.
pub proof fn law_at_most_one_event(
    epoch: Seq<char>,
    before: CacheView,
    request: ControlRequest,
    response: ResponseView,
    after: CacheView,
    events: Seq<EventView>,
    delivered: Seq<EventView>,
)
    requires
        handled(epoch, before, request, response, after, events, delivered),
    ensures
        events.len() <= 1,
        events.len() == 1 <==> due(epoch, before, request) matches Due::Fresh(
            PlanView::Dispatch { .. },
        ),
{
}

/// Where a request sets off an event, it is answered as accepted exactly if the application took
/// the event; otherwise it is answered that the channel is closed.
pub proof fn law_accepted_means_delivered(
    epoch: Seq<char>,
    before: CacheView,
    request: ControlRequest,
    response: ResponseView,
    after: CacheView,
    events: Seq<EventView>,
    delivered: Seq<EventView>,
)
    requires
        handled(epoch, before, request, response, after, events, delivered),
    ensures
        due(epoch, before, request) matches Due::Fresh(PlanView::Dispatch { event, accepted })
            ==> {
            &&& response == accepted <==> delivered == seq![event]
            &&& response == closed_view(request.request_id@, epoch) <==> delivered.len() == 0
            &&& response.ok <==> delivered.len() == 1
        },
{
    lemma_plan_answers(request.request_id@, epoch, request.command);
}

/// Every answer is coherent and names the request that it answers, but for the two refusals that
/// concern the id itself, which name none; and the cache stays faithful.
pub proof fn law_answers_are_faithful(
    epoch: Seq<char>,
    before: CacheView,
    request: ControlRequest,
    response: ResponseView,
    after: CacheView,
    events: Seq<EventView>,
    delivered: Seq<EventView>,
)
    requires
        before.wf(),
        faithful(before),
        handled(epoch, before, request, response, after, events, delivered),
    ensures
        faithful(after),
        coherent(response),
        response.request_id == (if id_refusal(request.request_id@, epoch) is Some {
            ""@
        } else {
            request.request_id@
        }),
{
    lemma_plan_answers(request.request_id@, epoch, request.command);
    if due(epoch, before, request) is Fresh {
        crate::request_cache::law_inserted_answer_is_found(
            before,
            request.request_id@,
            response,
        );
        assert forall|id: Seq<char>| #[trigger] after.entries.contains_key(id) implies coherent(
            after.entries[id],
        ) && after.entries[id].request_id == id by {
            if id != request.request_id@ {
                assert(before.entries.contains_key(id));
            }
        }
    }
}

/// Whether a request is new: its id says something, takes no more than 256 bytes and is not
/// remembered, and it is meant for no other epoch.
pub open spec fn is_new(epoch: Seq<char>, before: CacheView, request: ControlRequest) -> bool {
    &&& says_something(request.request_id@)
    &&& encode_utf8(request.request_id@).len() <= 256
    &&& !before.entries.contains_key(request.request_id@)
    &&& request.expected_epoch matches Some(expected) ==> expected@ == epoch
}

/// Whether a request was accepted, and its one event taken; or whether the one event was offered in
/// vain, which is then reported.
pub open spec fn set_off(
    request: ControlRequest,
    epoch: Seq<char>,
    response: ResponseView,
    events: Seq<EventView>,
    delivered: Seq<EventView>,
    event: EventView,
    result: Seq<(Seq<char>, JsonView)>,
) -> bool {
    &&& events == seq![event]
    &&& delivered == events || delivered.len() == 0
    &&& response.request_id == request.request_id@
    &&& response.epoch == epoch
    &&& delivered.len() > 0 ==> {
        &&& response.ok
        &&& response.result == Some(JsonView::Object(result))
        &&& response.error is None
    }
    &&& delivered.len() == 0 ==> {
        &&& !response.ok
        &&& response.result is None
        &&& response.error == Some(
            ErrorView {
                code: "event_channel_closed"@,
                message: "control socket is unavailable; app event channel is closed"@,
            },
        )
    }
}

/// Whether a request was turned down: nothing is set off, and the answer says why.
pub open spec fn turned_down(
    request_id: Seq<char>,
    epoch: Seq<char>,
    response: ResponseView,
    events: Seq<EventView>,
    delivered: Seq<EventView>,
    code: Seq<char>,
    message: Seq<char>,
) -> bool {
    &&& events.len() == 0
    &&& delivered.len() == 0
    &&& !response.ok
    &&& response.request_id == request_id
    &&& response.epoch == epoch
    &&& response.result is None
    &&& response.error == Some(ErrorView { code, message })
}

/// Whether a command goes where a request says: to the thread whose UUID the text denotes, or
/// without one to the current thread.
pub open spec fn goes_to(event: EventView, thread_id: Option<String>, op: CommandView) -> bool {
    match thread_id {
        None => event == EventView::CodexOp(op),
        Some(text) => uuid_value(text@) matches Some(uuid) && event
            == (EventView::SubmitThreadOp { thread_id: ThreadId { uuid }, op }),
    }
}

/// Whether a thread id is missing or denotes a UUID.
pub open spec fn is_target(thread_id: Option<String>) -> bool {
    thread_id matches Some(text) ==> uuid_value(text@) is Some
}

/// The members of the result of an accepted request.
pub open spec fn accepted_members(operation: Seq<char>) -> Seq<(Seq<char>, JsonView)> {
    seq![
        ("status"@, JsonView::Text("accepted"@)),
        ("operation"@, JsonView::Text(operation)),
    ]
}

proof fn lemma_new_is_fresh(epoch: Seq<char>, before: CacheView, request: ControlRequest)
    requires
        is_new(epoch, before, request),
    ensures
        due(epoch, before, request) == Due::Fresh(
            plan_view(request.request_id@, epoch, request.command),
        ),
{
    law_blank_text_says_nothing(request.request_id@);
}

proof fn lemma_verdict_words()
    ensures
        "approved"@ != "approved_for_session"@,
        "approved"@ != "denied"@,
        "approved"@ != "abort"@,
        "approved_for_session"@ != "denied"@,
        "approved_for_session"@ != "abort"@,
        "denied"@ != "abort"@,
{
    reveal_strlit("approved");
    reveal_strlit("approved_for_session");
    reveal_strlit("denied");
    reveal_strlit("abort");
    assert("approved"@.len() == 8);
    assert("approved_for_session"@.len() == 20);
    assert("denied"@.len() == 6);
    assert("abort"@.len() == 5);
}

/// A verdict on a command reaches the agent as it was given: accepted exactly for `approved`,
/// accepted for the session exactly for `approved_for_session`, declined exactly for `denied`, and
/// cancelled exactly for `abort`, for the call, the turn and the thread that the request names.
/// Nothing is sent for any other word, nor where the thread id is no UUID.
pub proof fn law_exec_verdicts_are_kept(
    epoch: Seq<char>,
    before: CacheView,
    request: ControlRequest,
    response: ResponseView,
    after: CacheView,
    events: Seq<EventView>,
    delivered: Seq<EventView>,
    call_id: String,
    word: String,
    thread_id: Option<String>,
    turn_id: Option<String>,
)
    requires
        is_new(epoch, before, request),
        request.command == (ControlCommand::SubmitApproval {
            id: call_id,
            decision: word,
            approval_kind: ApprovalKind::Exec,
            thread_id,
            turn_id,
        }),
        handled(epoch, before, request, response, after, events, delivered),
    ensures
        events.len() == 1 <==> is_target(thread_id) && (word@ == "approved"@ || word@
            == "approved_for_session"@ || word@ == "denied"@ || word@ == "abort"@),
        events.len() == 1 ==> exists|verdict: CommandExecutionApprovalDecision|
            {
                &&& verdict == CommandExecutionApprovalDecision::Accept <==> word@ == "approved"@
                &&& verdict == CommandExecutionApprovalDecision::AcceptForSession <==> word@
                    == "approved_for_session"@
                &&& verdict == CommandExecutionApprovalDecision::Decline <==> word@ == "denied"@
                &&& verdict == CommandExecutionApprovalDecision::Cancel <==> word@ == "abort"@
                &&& goes_to(
                    events[0],
                    thread_id,
                    #[trigger] exec_approval(call_id@, opt_view(turn_id), verdict),
                )
                &&& set_off(
                    request,
                    epoch,
                    response,
                    events,
                    delivered,
                    events[0],
                    accepted_members("submit_approval"@),
                )
            },
        is_target(thread_id) && events.len() != 1 ==> turned_down(
            request.request_id@,
            epoch,
            response,
            events,
            delivered,
            "invalid_request"@,
            "exec approval decision must be one of: approved, approved_for_session, denied, abort"@,
        ),
        !is_target(thread_id) ==> turned_down(
            request.request_id@,
            epoch,
            response,
            events,
            delivered,
            "invalid_request"@,
            "thread_id is not a valid UUID: "@ + opt_view(thread_id)->Some_0,
        ),
{
    lemma_new_is_fresh(epoch, before, request);
    lemma_verdict_words();
    if events.len() == 1 {
        let verdict = if word@ == "approved"@ {
            CommandExecutionApprovalDecision::Accept
        } else if word@ == "approved_for_session"@ {
            CommandExecutionApprovalDecision::AcceptForSession
        } else if word@ == "denied"@ {
            CommandExecutionApprovalDecision::Decline
        } else {
            CommandExecutionApprovalDecision::Cancel
        };
        assert(goes_to(
            events[0],
            thread_id,
            exec_approval(call_id@, opt_view(turn_id), verdict),
        ));
    }
}

/// The command that hands on a verdict on a command.
pub open spec fn exec_approval(
    id: Seq<char>,
    turn_id: Option<Seq<char>>,
    decision: CommandExecutionApprovalDecision,
) -> CommandView {
    CommandView::ExecApproval { id, turn_id, decision }
}

/// The command that hands on a verdict on a file change.
pub open spec fn patch_approval(id: Seq<char>, decision: FileChangeApprovalDecision) -> CommandView {
    CommandView::PatchApproval { id, decision }
}

/// A verdict on a file change reaches the agent as it was given: accepted exactly for `approved`,
/// accepted for the session exactly for `approved_for_session`, declined exactly for `denied`, and
/// cancelled exactly for `abort`, for the call and the thread that the request names. Nothing is
/// sent for any other word, nor where the thread id is no UUID.
pub proof fn law_patch_verdicts_are_kept(
    epoch: Seq<char>,
    before: CacheView,
    request: ControlRequest,
    response: ResponseView,
    after: CacheView,
    events: Seq<EventView>,
    delivered: Seq<EventView>,
    call_id: String,
    word: String,
    thread_id: Option<String>,
    turn_id: Option<String>,
)
    requires
        is_new(epoch, before, request),
        request.command == (ControlCommand::SubmitApproval {
            id: call_id,
            decision: word,
            approval_kind: ApprovalKind::Patch,
            thread_id,
            turn_id,
        }),
        handled(epoch, before, request, response, after, events, delivered),
    ensures
        events.len() == 1 <==> is_target(thread_id) && (word@ == "approved"@ || word@
            == "approved_for_session"@ || word@ == "denied"@ || word@ == "abort"@),
        events.len() == 1 ==> exists|verdict: FileChangeApprovalDecision|
            {
                &&& verdict == FileChangeApprovalDecision::Accept <==> word@ == "approved"@
                &&& verdict == FileChangeApprovalDecision::AcceptForSession <==> word@
                    == "approved_for_session"@
                &&& verdict == FileChangeApprovalDecision::Decline <==> word@ == "denied"@
                &&& verdict == FileChangeApprovalDecision::Cancel <==> word@ == "abort"@
                &&& goes_to(events[0], thread_id, #[trigger] patch_approval(call_id@, verdict))
                &&& set_off(
                    request,
                    epoch,
                    response,
                    events,
                    delivered,
                    events[0],
                    accepted_members("submit_approval"@),
                )
            },
        is_target(thread_id) && events.len() != 1 ==> turned_down(
            request.request_id@,
            epoch,
            response,
            events,
            delivered,
            "invalid_request"@,
            "patch approval decision must be one of: approved, approved_for_session, denied, abort"@,
        ),
        !is_target(thread_id) ==> turned_down(
            request.request_id@,
            epoch,
            response,
            events,
            delivered,
            "invalid_request"@,
            "thread_id is not a valid UUID: "@ + opt_view(thread_id)->Some_0,
        ),
{
    lemma_new_is_fresh(epoch, before, request);
    lemma_verdict_words();
    if events.len() == 1 {
        let verdict = if word@ == "approved"@ {
            FileChangeApprovalDecision::Accept
        } else if word@ == "approved_for_session"@ {
            FileChangeApprovalDecision::AcceptForSession
        } else if word@ == "denied"@ {
            FileChangeApprovalDecision::Decline
        } else {
            FileChangeApprovalDecision::Cancel
        };
        assert(goes_to(events[0], thread_id, patch_approval(call_id@, verdict)));
    }
}

/// A message that says something reaches the application word for word, and only where no thread is
/// named; every other message is turned down, each for its own reason.
pub proof fn law_messages_are_handed_over_whole(
    epoch: Seq<char>,
    before: CacheView,
    request: ControlRequest,
    response: ResponseView,
    after: CacheView,
    events: Seq<EventView>,
    delivered: Seq<EventView>,
    message: String,
    thread_id: Option<String>,
)
    requires
        is_new(epoch, before, request),
        request.command == (ControlCommand::SubmitMessage { message, thread_id }),
        handled(epoch, before, request, response, after, events, delivered),
    ensures
        says_something(message@) && thread_id is None ==> set_off(
            request,
            epoch,
            response,
            events,
            delivered,
            EventView::SubmitExternalLiteralUserMessage { text: message@ },
            accepted_members("submit_message"@),
        ),
        !says_something(message@) ==> turned_down(
            request.request_id@,
            epoch,
            response,
            events,
            delivered,
            "invalid_request"@,
            "message must be non-empty"@,
        ),
        says_something(message@) && thread_id is Some && is_target(thread_id) ==> turned_down(
            request.request_id@,
            epoch,
            response,
            events,
            delivered,
            "unsupported_request"@,
            "thread_id is not supported for submit_message in this build"@,
        ),
        says_something(message@) && !is_target(thread_id) ==> turned_down(
            request.request_id@,
            epoch,
            response,
            events,
            delivered,
            "invalid_request"@,
            "thread_id is not a valid UUID: "@ + opt_view(thread_id)->Some_0,
        ),
{
    lemma_new_is_fresh(epoch, before, request);
    law_blank_text_says_nothing(message@);
}

/// A thread gets the name that was asked for, without the white space around it; a name of nothing
/// but white space is turned down.
pub proof fn law_names_are_handed_over_trimmed(
    epoch: Seq<char>,
    before: CacheView,
    request: ControlRequest,
    response: ResponseView,
    after: CacheView,
    events: Seq<EventView>,
    delivered: Seq<EventView>,
    name: String,
    thread_id: Option<String>,
)
    requires
        is_new(epoch, before, request),
        request.command == (ControlCommand::SetThreadName { name, thread_id }),
        handled(epoch, before, request, response, after, events, delivered),
    ensures
        says_something(name@) && is_target(thread_id) ==> exists|start: int, end: int|
            {
                &&& #[trigger] crate::text::is_visible_middle(name@, start, end)
                &&& events.len() == 1
                &&& goes_to(
                    events[0],
                    thread_id,
                    CommandView::SetThreadName { name: name@.subrange(start, end) },
                )
                &&& set_off(
                    request,
                    epoch,
                    response,
                    events,
                    delivered,
                    events[0],
                    accepted_members("set_thread_name"@),
                )
            },
        says_something(name@) && !is_target(thread_id) ==> turned_down(
            request.request_id@,
            epoch,
            response,
            events,
            delivered,
            "invalid_request"@,
            "thread_id is not a valid UUID: "@ + opt_view(thread_id)->Some_0,
        ),
        !says_something(name@) ==> turned_down(
            request.request_id@,
            epoch,
            response,
            events,
            delivered,
            "invalid_request"@,
            "thread name must not be empty"@,
        ),
{
    lemma_new_is_fresh(epoch, before, request);
    law_blank_text_says_nothing(name@);
    crate::text::law_trimming_leaves_the_visible_middle(name@);
    if says_something(name@) && is_target(thread_id) {
        let (start, end) = choose|start: int, end: int|
            #[trigger] crate::text::is_visible_middle(name@, start, end) && trimmed(name@)
                == name@.subrange(start, end);
        assert(crate::text::is_visible_middle(name@, start, end));
        assert(trimmed(name@) == name@.subrange(start, end));
    }
}

/// A side conversation is asked for under the id of its request and with its prompt word for word,
/// exactly if the prompt says something and takes no more than 4096 bytes.
pub proof fn law_prompts_are_handed_over_whole(
    epoch: Seq<char>,
    before: CacheView,
    request: ControlRequest,
    response: ResponseView,
    after: CacheView,
    events: Seq<EventView>,
    delivered: Seq<EventView>,
    prompt: String,
)
    requires
        is_new(epoch, before, request),
        request.command == (ControlCommand::SubmitBtw { prompt }),
        handled(epoch, before, request, response, after, events, delivered),
    ensures
        says_something(prompt@) && encode_utf8(prompt@).len() <= 4096 ==> set_off(
            request,
            epoch,
            response,
            events,
            delivered,
            EventView::StartExternalBtw { request_id: request.request_id@, prompt: prompt@ },
            accepted_members("submit_btw"@),
        ),
        !says_something(prompt@) ==> turned_down(
            request.request_id@,
            epoch,
            response,
            events,
            delivered,
            "invalid_request"@,
            "prompt must be non-empty"@,
        ),
        says_something(prompt@) && encode_utf8(prompt@).len() > 4096 ==> turned_down(
            request.request_id@,
            epoch,
            response,
            events,
            delivered,
            "invalid_request"@,
            "prompt exceeds 4096 UTF-8 bytes"@,
        ),
{
    lemma_new_is_fresh(epoch, before, request);
    law_blank_text_says_nothing(prompt@);
}

/// The answers of the user reach the agent as they were decoded, for the call and the thread that
/// the request names; what could not be decoded is turned down with the reason.
pub proof fn law_user_input_is_handed_over_whole(
    epoch: Seq<char>,
    before: CacheView,
    request: ControlRequest,
    response: ResponseView,
    after: CacheView,
    events: Seq<EventView>,
    delivered: Seq<EventView>,
    call_id: String,
    payload: UserInputPayload,
    thread_id: Option<String>,
)
    requires
        is_new(epoch, before, request),
        request.command == (ControlCommand::SubmitUserInput {
            id: call_id,
            response: payload,
            thread_id,
        }),
        handled(epoch, before, request, response, after, events, delivered),
    ensures
        is_target(thread_id) ==> (payload matches UserInputPayload::Decoded(answers) ==> {
            &&& events.len() == 1
            &&& goes_to(
                events[0],
                thread_id,
                CommandView::UserInputAnswer { id: call_id@, response: answers },
            )
            &&& set_off(
                request,
                epoch,
                response,
                events,
                delivered,
                events[0],
                accepted_members("submit_user_input"@),
            )
        }),
        is_target(thread_id) ==> (payload matches UserInputPayload::Undecodable(error)
            ==> turned_down(
            request.request_id@,
            epoch,
            response,
            events,
            delivered,
            "invalid_request"@,
            "response is invalid: "@ + error@,
        )),
        !is_target(thread_id) ==> turned_down(
            request.request_id@,
            epoch,
            response,
            events,
            delivered,
            "invalid_request"@,
            "thread_id is not a valid UUID: "@ + opt_view(thread_id)->Some_0,
        ),
{
    lemma_new_is_fresh(epoch, before, request);
}

/// A shutdown ends the application at once exactly if that was asked for, and else after its work
/// is shut down.
pub proof fn law_shutdown_is_as_immediate_as_asked(
    epoch: Seq<char>,
    before: CacheView,
    request: ControlRequest,
    response: ResponseView,
    after: CacheView,
    events: Seq<EventView>,
    delivered: Seq<EventView>,
    immediate: bool,
)
    requires
        is_new(epoch, before, request),
        request.command == (ControlCommand::Shutdown { immediate }),
        handled(epoch, before, request, response, after, events, delivered),
    ensures
        events.len() == 1,
        events[0] == EventView::Exit(ExitMode::Immediate) <==> immediate,
        events[0] == EventView::Exit(ExitMode::ShutdownFirst) <==> !immediate,
        set_off(
            request,
            epoch,
            response,
            events,
            delivered,
            events[0],
            accepted_members("shutdown"@).push(("immediate"@, JsonView::Bool(immediate))),
        ),
{
    lemma_new_is_fresh(epoch, before, request);
    assert(accepted_members("shutdown"@).push(("immediate"@, JsonView::Bool(immediate))) =~= seq![
        ("status"@, JsonView::Text("accepted"@)),
        ("operation"@, JsonView::Text("shutdown"@)),
        ("immediate"@, JsonView::Bool(immediate)),
    ]);
}

/// A new query for the epoch is answered with it and sets nothing off.
pub proof fn law_epoch_is_told(
    epoch: Seq<char>,
    before: CacheView,
    request: ControlRequest,
    response: ResponseView,
    after: CacheView,
    events: Seq<EventView>,
    delivered: Seq<EventView>,
)
    requires
        is_new(epoch, before, request),
        request.command is GetEpoch,
        handled(epoch, before, request, response, after, events, delivered),
    ensures
        events.len() == 0,
        delivered.len() == 0,
        response.ok,
        response.request_id == request.request_id@,
        response.epoch == epoch,
        response.result == Some(JsonView::Object(seq![("epoch"@, JsonView::Text(epoch))])),
        response.error is None,
{
    lemma_new_is_fresh(epoch, before, request);
}

/// What is refused before it is looked at: an id without anything visible in it, one of more than
/// 256 bytes, and a request for another epoch, in this order. Nothing is set off or remembered.
pub proof fn law_unusable_requests_are_refused(
    epoch: Seq<char>,
    before: CacheView,
    request: ControlRequest,
    response: ResponseView,
    after: CacheView,
    events: Seq<EventView>,
    delivered: Seq<EventView>,
)
    requires
        handled(epoch, before, request, response, after, events, delivered),
    ensures
        !says_something(request.request_id@) ==> after == before && turned_down(
            ""@,
            epoch,
            response,
            events,
            delivered,
            "invalid_request"@,
            "request_id must be a non-empty string"@,
        ),
        says_something(request.request_id@) && encode_utf8(request.request_id@).len() > 256 ==> after
            == before && turned_down(
            ""@,
            epoch,
            response,
            events,
            delivered,
            "invalid_request"@,
            "request_id exceeds max length of 256 characters"@,
        ),
        says_something(request.request_id@) && encode_utf8(request.request_id@).len() <= 256 ==> (
        request.expected_epoch matches Some(expected) ==> (expected@ != epoch ==> after == before
            && turned_down(
            request.request_id@,
            epoch,
            response,
            events,
            delivered,
            "stale_epoch"@,
            "expected_epoch="@ + expected@ + " does not match current epoch="@ + epoch,
        ))),
{
    law_blank_text_says_nothing(request.request_id@);
}

/// What is asked under a remembered id is answered from memory, word for word, and sets nothing off;
/// but a query for the epoch only where the remembered answer is of the same epoch.
pub proof fn law_remembered_ids_are_replayed(
    epoch: Seq<char>,
    before: CacheView,
    request: ControlRequest,
    response: ResponseView,
    after: CacheView,
    events: Seq<EventView>,
    delivered: Seq<EventView>,
)
    requires
        says_something(request.request_id@),
        encode_utf8(request.request_id@).len() <= 256,
        request.expected_epoch matches Some(expected) ==> expected@ == epoch,
        before.entries.contains_key(request.request_id@),
        request.command is GetEpoch ==> before.entries[request.request_id@].epoch == epoch,
        handled(epoch, before, request, response, after, events, delivered),
    ensures
        response == before.entries[request.request_id@],
        after == before,
        events.len() == 0,
        delivered.len() == 0,
{
    law_blank_text_says_nothing(request.request_id@);
}

/// Every answer to a new request is remembered under its id, whatever the answer.
pub proof fn law_new_answers_are_remembered(
    epoch: Seq<char>,
    before: CacheView,
    request: ControlRequest,
    response: ResponseView,
    after: CacheView,
    events: Seq<EventView>,
    delivered: Seq<EventView>,
)
    requires
        before.wf(),
        is_new(epoch, before, request),
        handled(epoch, before, request, response, after, events, delivered),
    ensures
        after.wf(),
        after.entries.contains_key(request.request_id@),
        after.entries[request.request_id@] == response,
{
    lemma_new_is_fresh(epoch, before, request);
    crate::request_cache::law_inserted_answer_is_found(before, request.request_id@, response);
}

/// Without a cache, nothing but the id is looked at: one that is unusable is refused as ever, and
/// every other request is told that the cache is out of reach.
pub proof fn law_requests_without_cache_are_refused(request: ControlRequest, epoch: Seq<char>)
    ensures
        ({
            let none = Seq::<EventView>::empty();
            let response = without_cache_view(request, epoch);
            &&& says_something(request.request_id@) && encode_utf8(request.request_id@).len() <= 256
                ==> turned_down(
                request.request_id@,
                epoch,
                response,
                none,
                none,
                "internal_error"@,
                "control cache lock poisoned"@,
            )
            &&& !says_something(request.request_id@) ==> turned_down(
                ""@,
                epoch,
                response,
                none,
                none,
                "invalid_request"@,
                "request_id must be a non-empty string"@,
            )
            &&& says_something(request.request_id@) && encode_utf8(request.request_id@).len() > 256
                ==> turned_down(
                ""@,
                epoch,
                response,
                none,
                none,
                "invalid_request"@,
                "request_id exceeds max length of 256 characters"@,
            )
        }),
{
    law_blank_text_says_nothing(request.request_id@);
}

} // verus!
