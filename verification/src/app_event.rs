//! Events inside the application, and the channel that carries them.

use crate::app_command::{AppCommand, CommandView};
use crate::channel::Outbox;
use crate::json::Json;
use crate::thread_id::ThreadId;
use tokio::sync::mpsc::UnboundedSender;
use vstd::prelude::*;

verus! {

/// How the application ends.
#[derive(Clone, Copy, Debug, PartialEq, Eq, Structural)]
pub enum ExitMode {
    ShutdownFirst,
    Immediate,
}

/// An event of the agent protocol, in its encoded form: the whole event, and its message where
/// that could be encoded on its own.
#[derive(Debug, PartialEq, Eq)]
pub struct ProtocolEvent {
    pub encoded: Json,
    pub msg: Option<Json>,
}

/// An event inside the application.
#[derive(Debug, PartialEq, Eq)]
pub enum AppEvent {
    CodexEvent(ProtocolEvent),
    ThreadEvent { thread_id: ThreadId, event: ProtocolEvent },
    NewSession,
    ClearUi,
    InsertHistoryCell { transcript_lines: usize },
    StartFileSearch(String),
    FileSearchResult { query: String, matches: Vec<String> },
    SubmitExternalLiteralUserMessage { text: String },
    StartExternalBtw { request_id: String, prompt: String },
    CleanupExternalBtw { thread_id: ThreadId },
    SubmitThreadOp { thread_id: ThreadId, op: AppCommand },
    CodexOp(AppCommand),
    Exit(ExitMode),
    /// Any event that plays no part here.
    Other,
}

/// The content of an event.
#[verifier::ext_equal]
pub enum EventView {
    CodexEvent(ProtocolEvent),
    ThreadEvent { thread_id: ThreadId, event: ProtocolEvent },
    NewSession,
    ClearUi,
    InsertHistoryCell { transcript_lines: usize },
    StartFileSearch(Seq<char>),
    FileSearchResult { query: Seq<char>, matches: Vec<String> },
    SubmitExternalLiteralUserMessage { text: Seq<char> },
    StartExternalBtw { request_id: Seq<char>, prompt: Seq<char> },
    CleanupExternalBtw { thread_id: ThreadId },
    SubmitThreadOp { thread_id: ThreadId, op: CommandView },
    CodexOp(CommandView),
    Exit(ExitMode),
    Other,
}

impl View for AppEvent {
    type V = EventView;

    open spec fn view(&self) -> EventView {
        match self {
            AppEvent::CodexEvent(event) => EventView::CodexEvent(*event),
            AppEvent::ThreadEvent { thread_id, event } => EventView::ThreadEvent {
                thread_id: *thread_id,
                event: *event,
            },
            AppEvent::NewSession => EventView::NewSession,
            AppEvent::ClearUi => EventView::ClearUi,
            AppEvent::InsertHistoryCell { transcript_lines } => EventView::InsertHistoryCell {
                transcript_lines: *transcript_lines,
            },
            AppEvent::StartFileSearch(query) => EventView::StartFileSearch(query@),
            AppEvent::FileSearchResult { query, matches } => EventView::FileSearchResult {
                query: query@,
                matches: *matches,
            },
            AppEvent::SubmitExternalLiteralUserMessage { text } =>
                EventView::SubmitExternalLiteralUserMessage { text: text@ },
            AppEvent::StartExternalBtw { request_id, prompt } => EventView::StartExternalBtw {
                request_id: request_id@,
                prompt: prompt@,
            },
            AppEvent::CleanupExternalBtw { thread_id } => EventView::CleanupExternalBtw {
                thread_id: *thread_id,
            },
            AppEvent::SubmitThreadOp { thread_id, op } => EventView::SubmitThreadOp {
                thread_id: *thread_id,
                op: op@,
            },
            AppEvent::CodexOp(op) => EventView::CodexOp(op@),
            AppEvent::Exit(mode) => EventView::Exit(*mode),
            AppEvent::Other => EventView::Other,
        }
    }
}

/// What an event is seen as is what it is: a message, a request or a command, for the same thread and
/// with the same content.
pub proof fn law_events_are_seen_as_they_are(event: AppEvent)
    ensures
        match event {
            AppEvent::SubmitExternalLiteralUserMessage { text } => event@ == (
            EventView::SubmitExternalLiteralUserMessage { text: text@ }),
            AppEvent::StartExternalBtw { request_id, prompt } => event@ == (
            EventView::StartExternalBtw { request_id: request_id@, prompt: prompt@ }),
            AppEvent::CleanupExternalBtw { thread_id } => event@ == (
            EventView::CleanupExternalBtw { thread_id }),
            AppEvent::SubmitThreadOp { thread_id, op } => event@ == (EventView::SubmitThreadOp {
                thread_id,
                op: op@,
            }),
            AppEvent::CodexOp(op) => event@ == EventView::CodexOp(op@),
            AppEvent::Exit(mode) => event@ == EventView::Exit(mode),
            AppEvent::CodexEvent(protocol) => event@ == EventView::CodexEvent(protocol),
            AppEvent::ThreadEvent { thread_id, event: protocol } => event@ == (
            EventView::ThreadEvent { thread_id, event: protocol }),
            AppEvent::NewSession => event@ is NewSession,
            AppEvent::ClearUi => event@ is ClearUi,
            AppEvent::InsertHistoryCell { transcript_lines } => event@ == (
            EventView::InsertHistoryCell { transcript_lines }),
            AppEvent::StartFileSearch(query) => event@ == EventView::StartFileSearch(query@),
            AppEvent::FileSearchResult { query, matches } => event@ == (
            EventView::FileSearchResult { query: query@, matches }),
            AppEvent::Other => event@ is Other,
        },
{
}

/// The contents of a list of events.
pub open spec fn event_views(events: Seq<AppEvent>) -> Seq<EventView> {
    events.map_values(|event: AppEvent| event@)
}

/// The sending side of the application's event channel.
pub struct AppEventSender {
    pub app_event_tx: Outbox<AppEvent>,
}

impl AppEventSender {
    /// The events offered to the channel through this sender, in order.
    pub open spec fn sent(self) -> Seq<EventView> {
        event_views(self.app_event_tx.offered())
    }

    /// Those of them that the channel took.
    pub open spec fn delivered(self) -> Seq<EventView> {
        event_views(self.app_event_tx.delivered())
    }

    /// A sender through which nothing was offered yet.
    pub fn new(tx: UnboundedSender<AppEvent>) -> (r: Self)
        ensures
            r.sent() == Seq::<EventView>::empty(),
            r.delivered() == Seq::<EventView>::empty(),
    {
        let r = AppEventSender { app_event_tx: Outbox::new(tx) };
        assert(r.sent() =~= Seq::<EventView>::empty());
        assert(r.delivered() =~= Seq::<EventView>::empty());
        r
    }

    /// Offers an event to the channel. It comes back where the receiving half is gone.
    pub fn send(&mut self, event: AppEvent) -> (r: Result<(), AppEvent>)
        ensures
            final(self).sent() == old(self).sent().push(event@),
            r is Ok ==> final(self).delivered() == old(self).delivered().push(event@),
            r matches Err(back) ==> back == event && final(self).delivered()
                == old(self).delivered(),
    {
        let r = self.app_event_tx.offer(event);
        assert(self.sent() =~= old(self).sent().push(event@));
        assert(r is Ok ==> self.delivered() =~= old(self).delivered().push(event@));
        r
    }
}

} // verus!
