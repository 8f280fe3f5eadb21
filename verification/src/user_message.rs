//! Messages of the user on their way to the agent: queued for later, or steering a turn that
//! runs.

use crate::app_command::TextElement;
use std::collections::VecDeque;
use vstd::prelude::*;

verus! {

/// What is done with a queued message when its time comes.
#[derive(Clone, Copy, Debug, PartialEq, Eq, Structural)]
pub enum QueuedInputAction {
    Plain,
    ParseSlash,
    RunShell,
    LiteralUserTurn,
}

/// A message of the user.
#[derive(Debug, PartialEq, Eq)]
pub struct UserMessage {
    pub text: String,
    pub local_images: Vec<String>,
    pub remote_image_urls: Vec<String>,
    pub text_elements: Vec<TextElement>,
    pub mention_bindings: Vec<String>,
}

/// The content of a message.
#[verifier::ext_equal]
pub struct MessageView {
    pub text: Seq<char>,
    pub local_images: Seq<String>,
    pub remote_image_urls: Seq<String>,
    pub text_elements: Seq<TextElement>,
    pub mention_bindings: Seq<String>,
}

impl View for UserMessage {
    type V = MessageView;

    open spec fn view(&self) -> MessageView {
        MessageView {
            text: self.text@,
            local_images: self.local_images@,
            remote_image_urls: self.remote_image_urls@,
            text_elements: self.text_elements@,
            mention_bindings: self.mention_bindings@,
        }
    }
}

/// A message that is text and nothing else.
pub open spec fn text_message(text: Seq<char>) -> MessageView {
    MessageView {
        text,
        local_images: Seq::empty(),
        remote_image_urls: Seq::empty(),
        text_elements: Seq::empty(),
        mention_bindings: Seq::empty(),
    }
}

impl UserMessage {
    /// A message that is text and nothing else.
    pub fn from_text(text: String) -> (r: UserMessage)
        ensures
            r.text == text,
            r@ == text_message(text@),
    {
        UserMessage {
            text,
            local_images: Vec::new(),
            remote_image_urls: Vec::new(),
            text_elements: Vec::new(),
            mention_bindings: Vec::new(),
        }
    }
}

/// A message that waits for its turn.
#[derive(Debug, PartialEq, Eq)]
pub struct QueuedUserMessage {
    pub user_message: UserMessage,
    pub action: QueuedInputAction,
}

/// The content of a queued message.
#[verifier::ext_equal]
pub struct QueuedView {
    pub user_message: MessageView,
    pub action: QueuedInputAction,
}

impl View for QueuedUserMessage {
    type V = QueuedView;

    open spec fn view(&self) -> QueuedView {
        QueuedView { user_message: self.user_message@, action: self.action }
    }
}

/// A text that waits to be submitted as it is.
pub open spec fn literal_queued(text: Seq<char>) -> QueuedView {
    QueuedView { user_message: text_message(text), action: QueuedInputAction::LiteralUserTurn }
}

impl QueuedUserMessage {
    pub fn new(user_message: UserMessage, action: QueuedInputAction) -> (r: QueuedUserMessage)
        ensures
            r.user_message == user_message,
            r.action == action,
    {
        QueuedUserMessage { user_message, action }
    }

    pub fn into_user_message(self) -> (r: UserMessage)
        ensures
            r == self.user_message,
    {
        self.user_message
    }
}

/// What a steering message is recognised by.
#[derive(Debug, PartialEq, Eq)]
pub struct PendingSteerCompareKey {
    pub message: String,
    pub image_count: usize,
}

/// A message that was sent to steer a running turn and is not yet confirmed.
#[derive(Debug, PartialEq, Eq)]
pub struct PendingSteer {
    pub user_message: UserMessage,
    pub compare_key: PendingSteerCompareKey,
    pub rejection_action: QueuedInputAction,
}

/// The content of a steering message.
#[verifier::ext_equal]
pub struct SteerView {
    pub user_message: MessageView,
    pub key_message: Seq<char>,
    pub key_image_count: usize,
    pub rejection_action: QueuedInputAction,
}

impl View for PendingSteer {
    type V = SteerView;

    open spec fn view(&self) -> SteerView {
        SteerView {
            user_message: self.user_message@,
            key_message: self.compare_key.message@,
            key_image_count: self.compare_key.image_count,
            rejection_action: self.rejection_action,
        }
    }
}

/// A text that steers a running turn as it is.
pub open spec fn literal_steer(text: Seq<char>) -> SteerView {
    SteerView {
        user_message: text_message(text),
        key_message: text,
        key_image_count: 0,
        rejection_action: QueuedInputAction::LiteralUserTurn,
    }
}

/// A text that steers a running turn as it is.
pub fn literal_pending_steer(text: String) -> (r: PendingSteer)
    ensures
        r@ == literal_steer(text@),
{
    PendingSteer {
        user_message: UserMessage::from_text(text.clone()),
        compare_key: PendingSteerCompareKey { message: text, image_count: 0 },
        rejection_action: QueuedInputAction::LiteralUserTurn,
    }
}

/// The contents of queued messages.
pub open spec fn queued_views(queue: Seq<QueuedUserMessage>) -> Seq<QueuedView> {
    queue.map_values(|message: QueuedUserMessage| message@)
}

/// The contents of steering messages.
pub open spec fn steer_views(steers: Seq<PendingSteer>) -> Seq<SteerView> {
    steers.map_values(|steer: PendingSteer| steer@)
}

/// The contents of messages.
pub open spec fn message_views(messages: Seq<UserMessage>) -> Seq<MessageView> {
    messages.map_values(|message: UserMessage| message@)
}

/// Whether the last steering message is `text`, sent as it is.
pub open spec fn ends_with_literal(steers: Seq<SteerView>, text: Seq<char>) -> bool {
    steers.len() > 0 && steers.last().rejection_action == QueuedInputAction::LiteralUserTurn
        && steers.last().user_message.text == text
}

/// The steering messages after `text` was called back: only the last one can be, and only if it
/// is that text, sent as it is.
pub open spec fn cancelled(steers: Seq<SteerView>, text: Seq<char>) -> Seq<SteerView> {
    if ends_with_literal(steers, text) {
        steers.drop_last()
    } else {
        steers
    }
}

/// Calling back what was just sent leaves the messages as they were before.
pub proof fn law_cancel_undoes_record(steers: Seq<SteerView>, text: Seq<char>)
    ensures
        cancelled(steers.push(literal_steer(text)), text) == steers,
{
    assert(steers.push(literal_steer(text)).drop_last() =~= steers);
}

/// Calling back another text than the one sent last changes nothing.
pub proof fn law_cancel_spares_other_texts(
    steers: Seq<SteerView>,
    sent: Seq<char>,
    text: Seq<char>,
)
    requires
        sent != text,
    ensures
        cancelled(steers.push(literal_steer(sent)), text) == steers.push(literal_steer(sent)),
{
}

/// Only the last message can be called back, and only if it was sent as it is and reads like that;
/// those before it stay, whatever they read.
pub proof fn law_only_the_last_literal_is_cancelled(steers: Seq<SteerView>, text: Seq<char>)
    ensures
        steers.len() == 0 ==> cancelled(steers, text) == steers,
        steers.len() > 0 && steers.last().rejection_action == QueuedInputAction::LiteralUserTurn
            && steers.last().user_message.text == text ==> cancelled(steers, text) == steers.take(
            steers.len() - 1,
        ) && ends_with_literal(steers, text),
        steers.len() > 0 && (steers.last().rejection_action != QueuedInputAction::LiteralUserTurn
            || steers.last().user_message.text != text) ==> cancelled(steers, text) == steers
            && !ends_with_literal(steers, text),
        steers.len() == 0 ==> !ends_with_literal(steers, text),
{
    if steers.len() > 0 {
        assert(steers.drop_last() =~= steers.take(steers.len() - 1));
    }
}

/// Whether a message is a text and nothing else.
pub open spec fn is_bare(message: MessageView, text: Seq<char>) -> bool {
    &&& message.text == text
    &&& message.local_images.len() == 0
    &&& message.remote_image_urls.len() == 0
    &&& message.text_elements.len() == 0
    &&& message.mention_bindings.len() == 0
}

/// A text from outside waits, and steers, word for word and with nothing added; it is recognised by
/// its text, and where it is refused it is still submitted as it is.
pub proof fn law_literal_texts_are_kept_bare(text: Seq<char>)
    ensures
        is_bare(literal_queued(text).user_message, text),
        literal_queued(text).action == QueuedInputAction::LiteralUserTurn,
        is_bare(literal_steer(text).user_message, text),
        literal_steer(text).key_message == text,
        literal_steer(text).key_image_count == 0,
        literal_steer(text).rejection_action == QueuedInputAction::LiteralUserTurn,
{
}

/// Adds a text that steers a running turn as it is.
pub fn push_literal_steer(steers: &mut VecDeque<PendingSteer>, text: String)
    ensures
        steer_views(final(steers)@) == steer_views(old(steers)@).push(literal_steer(text@)),
{
    steers.push_back(literal_pending_steer(text));
    assert(steer_views(steers@) =~= steer_views(old(steers)@).push(literal_steer(text@)));
}

/// Calls back a text that was just sent to steer a running turn.
pub fn pop_literal_steer(steers: &mut VecDeque<PendingSteer>, text: &str) -> (popped: bool)
    ensures
        popped == ends_with_literal(steer_views(old(steers)@), text@),
        steer_views(final(steers)@) == cancelled(steer_views(old(steers)@), text@),
{
    let n: usize = steers.len();
    if n == 0 {
        return false;
    }
    let last = &steers[n - 1];
    let ghost views = steer_views(steers@);
    assert(views.last() == last@);
    if last.rejection_action == QueuedInputAction::LiteralUserTurn && crate::text::same_text(
        last.user_message.text.as_str(),
        text,
    ) {
        let dropped = steers.pop_back();
        assert(steer_views(steers@) =~= views.drop_last());
        true
    } else {
        false
    }
}

} // verus!
