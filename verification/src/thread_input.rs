//! The input state of a thread that is not in view.

use crate::app_command::{CollaborationMode, CollaborationModeMask};
use crate::user_message::{
    cancelled, literal_steer, message_views, pop_literal_steer, push_literal_steer, queued_views,
    steer_views, MessageView, PendingSteer, QueuedInputAction, QueuedUserMessage, QueuedView,
    SteerView, UserMessage,
};
use std::collections::VecDeque;
use vstd::prelude::*;

verus! {

/// The input state of a thread.
pub struct ThreadInputState {
    pub pending_steers: VecDeque<PendingSteer>,
    pub queued_user_messages: VecDeque<QueuedUserMessage>,
    pub rejected_steers_queue: VecDeque<UserMessage>,
    pub user_turn_pending_start: bool,
    pub task_running: bool,
    pub agent_turn_running: bool,
    pub current_collaboration_mode: CollaborationMode,
    pub active_collaboration_mask: Option<CollaborationModeMask>,
}

/// The content of the input state of a thread.
#[verifier::ext_equal]
pub struct InputView {
    pub pending_steers: Seq<SteerView>,
    pub queued_user_messages: Seq<QueuedView>,
    pub rejected_steers_queue: Seq<MessageView>,
    pub user_turn_pending_start: bool,
    pub task_running: bool,
    pub agent_turn_running: bool,
    pub current_collaboration_mode: CollaborationMode,
    pub active_collaboration_mask: Option<CollaborationModeMask>,
}

impl View for ThreadInputState {
    type V = InputView;

    open spec fn view(&self) -> InputView {
        InputView {
            pending_steers: steer_views(self.pending_steers@),
            queued_user_messages: queued_views(self.queued_user_messages@),
            rejected_steers_queue: message_views(self.rejected_steers_queue@),
            user_turn_pending_start: self.user_turn_pending_start,
            task_running: self.task_running,
            agent_turn_running: self.agent_turn_running,
            current_collaboration_mode: self.current_collaboration_mode,
            active_collaboration_mask: self.active_collaboration_mask,
        }
    }
}

impl InputView {
    /// A turn of the user runs or is about to.
    pub open spec fn busy(self) -> bool {
        self.user_turn_pending_start || self.task_running
    }

    /// The state after the turn was confirmed as started.
    pub open spec fn started(self) -> InputView {
        InputView {
            user_turn_pending_start: false,
            task_running: true,
            agent_turn_running: true,
            ..self
        }
    }

    /// The state after the turn was confirmed as over.
    pub open spec fn completed(self) -> InputView {
        InputView {
            user_turn_pending_start: false,
            task_running: false,
            agent_turn_running: false,
            ..self
        }
    }

    /// The state after the turn refused to be steered: the oldest steering message goes to the
    /// rejected ones if it is plain, else to the front of the queue, with what is to be done
    /// with it.
    pub open spec fn steer_rejected(self) -> InputView
        recommends
            self.pending_steers.len() > 0,
    {
        let steer = self.pending_steers[0];
        let rest = self.pending_steers.drop_first();
        if steer.rejection_action == QueuedInputAction::Plain {
            InputView {
                pending_steers: rest,
                rejected_steers_queue: self.rejected_steers_queue.push(steer.user_message),
                ..self
            }
        } else {
            InputView {
                pending_steers: rest,
                queued_user_messages: seq![
                    QueuedView { user_message: steer.user_message, action: steer.rejection_action },
                ] + self.queued_user_messages,
                ..self
            }
        }
    }

    /// All messages that the state holds, wherever they stand.
    pub open spec fn messages(self) -> vstd::multiset::Multiset<MessageView> {
        self.pending_steers.map_values(|steer: SteerView| steer.user_message).to_multiset().add(
            self.queued_user_messages.map_values(
                |queued: QueuedView| queued.user_message,
            ).to_multiset(),
        ).add(self.rejected_steers_queue.to_multiset())
    }
}

/// A refused steering message is moved, never lost or doubled.
pub proof fn law_rejection_keeps_messages(state: InputView)
    requires
        state.pending_steers.len() > 0,
    ensures
        state.steer_rejected().messages() == state.messages(),
{
    broadcast use vstd::multiset::group_multiset_axioms;
    broadcast use vstd::seq_lib::group_to_multiset_ensures;

    let of_steer = |steer: SteerView| steer.user_message;
    let of_queued = |queued: QueuedView| queued.user_message;
    let steer = state.pending_steers[0];
    let rest = state.pending_steers.drop_first();
    let head = seq![steer.user_message];
    let after = state.steer_rejected();
    assert(state.pending_steers.map_values(of_steer) =~= head + rest.map_values(of_steer));
    vstd::seq_lib::lemma_multiset_commutative(head, rest.map_values(of_steer));
    if steer.rejection_action == QueuedInputAction::Plain {
        assert(after.rejected_steers_queue =~= state.rejected_steers_queue + head);
        vstd::seq_lib::lemma_multiset_commutative(state.rejected_steers_queue, head);
    } else {
        assert(after.queued_user_messages.map_values(of_queued) =~= head
            + state.queued_user_messages.map_values(of_queued));
        vstd::seq_lib::lemma_multiset_commutative(
            head,
            state.queued_user_messages.map_values(of_queued),
        );
    }
    assert(after.messages() =~= state.messages());
}

/// Where the oldest steering message goes when it is refused: behind the refused ones if it is plain,
/// and else before all that wait, with what is to be done with it. The other messages stay where they
/// are.
pub proof fn law_refused_message_goes_where_it_belongs(state: InputView)
    requires
        state.pending_steers.len() > 0,
    ensures
        ({
            let steer = state.pending_steers[0];
            let plain = steer.rejection_action == QueuedInputAction::Plain;
            let after = state.steer_rejected();
            let n = state.rejected_steers_queue.len() as int;
            &&& after.pending_steers == state.pending_steers.skip(1)
            &&& plain ==> {
                &&& after.rejected_steers_queue.len() == n + 1
                &&& after.rejected_steers_queue.take(n) == state.rejected_steers_queue
                &&& after.rejected_steers_queue[n] == steer.user_message
                &&& after.queued_user_messages == state.queued_user_messages
            }
            &&& !plain ==> {
                &&& after.rejected_steers_queue == state.rejected_steers_queue
                &&& after.queued_user_messages.len() == state.queued_user_messages.len() + 1
                &&& after.queued_user_messages.skip(1) == state.queued_user_messages
                &&& after.queued_user_messages[0].user_message == steer.user_message
                &&& after.queued_user_messages[0].action == steer.rejection_action
            }
            &&& after.user_turn_pending_start == state.user_turn_pending_start
            &&& after.task_running == state.task_running
            &&& after.agent_turn_running == state.agent_turn_running
            &&& after.current_collaboration_mode == state.current_collaboration_mode
            &&& after.active_collaboration_mask == state.active_collaboration_mask
        }),
{
    let after = state.steer_rejected();
    assert(state.pending_steers.drop_first() =~= state.pending_steers.skip(1));
    if state.pending_steers[0].rejection_action == QueuedInputAction::Plain {
        assert(after.rejected_steers_queue.take(state.rejected_steers_queue.len() as int)
            =~= state.rejected_steers_queue);
    } else {
        assert(after.queued_user_messages.skip(1) =~= state.queued_user_messages);
    }
}

/// A turn that starts or ends is noted as such in each place, and changes nothing else.
pub proof fn law_turn_is_noted(state: InputView)
    ensures
        !state.started().user_turn_pending_start,
        state.started().task_running,
        state.started().agent_turn_running,
        !state.completed().user_turn_pending_start,
        !state.completed().task_running,
        !state.completed().agent_turn_running,
        state.busy() <==> state.user_turn_pending_start || state.task_running,
        forall|after: InputView|
            after == state.started() || after == state.completed() ==> {
                &&& (#[trigger] after.pending_steers) == state.pending_steers
                &&& after.queued_user_messages == state.queued_user_messages
                &&& after.rejected_steers_queue == state.rejected_steers_queue
                &&& after.current_collaboration_mode == state.current_collaboration_mode
                &&& after.active_collaboration_mask == state.active_collaboration_mask
            },
{
}

/// A turn is pending from its submission to its start, and the thread is busy up to its end.
pub proof fn law_turn_keeps_thread_busy(state: InputView)
    ensures
        (InputView { user_turn_pending_start: true, ..state }).busy(),
        state.started().busy(),
        !state.started().user_turn_pending_start,
        !state.completed().busy(),
        state.started().completed() == state.completed(),
{
}

impl ThreadInputState {
    /// Notes a text that was sent to steer the running turn as it is.
    pub fn record_pending_external_literal_steer(&mut self, text: String)
        ensures
            final(self)@ == (InputView {
                pending_steers: old(self)@.pending_steers.push(literal_steer(text@)),
                ..old(self)@
            }),
    {
        push_literal_steer(&mut self.pending_steers, text);
    }

    /// Calls back a text that was just sent to steer the running turn.
    pub fn cancel_pending_external_literal_steer(&mut self, text: &str)
        ensures
            final(self)@ == (InputView {
                pending_steers: cancelled(old(self)@.pending_steers, text@),
                ..old(self)@
            }),
    {
        let _popped = pop_literal_steer(&mut self.pending_steers, text);
    }

    pub fn is_user_turn_pending_or_running(&self) -> (r: bool)
        ensures
            r == self@.busy(),
    {
        self.user_turn_pending_start || self.task_running
    }

    pub fn is_user_turn_pending_start(&self) -> (r: bool)
        ensures
            r == self.user_turn_pending_start,
    {
        self.user_turn_pending_start
    }

    pub fn mark_user_turn_pending_start(&mut self)
        ensures
            final(self)@ == (InputView { user_turn_pending_start: true, ..old(self)@ }),
    {
        self.user_turn_pending_start = true;
    }

    pub fn mark_user_turn_started(&mut self)
        ensures
            final(self)@ == old(self)@.started(),
    {
        self.user_turn_pending_start = false;
        self.task_running = true;
        self.agent_turn_running = true;
    }

    pub fn mark_user_turn_completed(&mut self)
        ensures
            final(self)@ == old(self)@.completed(),
    {
        self.user_turn_pending_start = false;
        self.task_running = false;
        self.agent_turn_running = false;
    }

    /// Takes back the oldest steering message, which the turn refused. There may be none.
    pub fn enqueue_rejected_steer(&mut self) -> (found: bool)
        ensures
            found == (old(self)@.pending_steers.len() > 0),
            final(self)@ == (if found {
                old(self)@.steer_rejected()
            } else {
                old(self)@
            }),
    {
        let ghost before = self@;
        match self.pending_steers.pop_front() {
            Some(steer) => {
                assert(steer@ == before.pending_steers[0]);
                assert(steer_views(self.pending_steers@) =~= before.pending_steers.drop_first());
                match steer.rejection_action {
                    QueuedInputAction::Plain => {
                        self.rejected_steers_queue.push_back(steer.user_message);
                        assert(message_views(self.rejected_steers_queue@)
                            =~= before.rejected_steers_queue.push(steer@.user_message));
                    },
                    action => {
                        self.queued_user_messages.push_front(
                            QueuedUserMessage::new(steer.user_message, action),
                        );
                        assert(queued_views(self.queued_user_messages@) =~= seq![
                            QueuedView { user_message: steer@.user_message, action },
                        ] + before.queued_user_messages);
                    },
                }
                assert(self@ =~= before.steer_rejected());
                true
            },
            None => {
                assert(self@ =~= before);
                false
            },
        }
    }
}

} // verus!
