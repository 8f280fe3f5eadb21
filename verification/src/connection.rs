//! Connections to the control socket: lines in, answers out.

use crate::control_response::{
    err_view, response_err, ControlResponse, ErrorView, ResponseView,
};
use crate::control_socket::{
    handled, process_request, process_request_without_cache, without_cache_view, ControlRequest,
    ControlState,
};
use crate::app_event::EventView;
use crate::request_cache::RequestCache;
use crate::text::{
    blank, is_visible_middle, law_blank_text_says_nothing, law_trimming_leaves_the_visible_middle,
    says_something, string_from_utf8, trim, trimmed, utf8_error_text,
};
use vstd::prelude::*;
use vstd::string::*;
use vstd::utf8::*;

verus! {

/// The longest line that is accepted, in bytes.
pub const REQUEST_MAX_CHARS: usize = 1048576;

/// What reading a line came to.
#[derive(Debug, PartialEq, Eq)]
pub enum ReadLineOutcome {
    Eof,
    Line(String),
    TooLarge,
    /// The line is not UTF-8; the text says why.
    Invalid(String),
}

/// What came from the stream.
#[derive(Clone, Copy, Debug, PartialEq, Eq, Structural)]
pub enum ReadEvent {
    /// The listener shuts down.
    Shutdown,
    /// The stream has ended.
    EndOfInput,
    /// A byte was read.
    Byte(u8),
    /// Nothing came in time.
    Retry,
}

/// The part of a line that was read so far.
pub struct LineReader {
    bytes: Vec<u8>,
    too_large: bool,
    seen: Ghost<Seq<u8>>,
}

/// The content of what reading a line came to.
#[verifier::ext_equal]
pub enum OutcomeView {
    Eof,
    Line(Seq<char>),
    TooLarge,
    Invalid(Seq<char>),
}

impl View for ReadLineOutcome {
    type V = OutcomeView;

    open spec fn view(&self) -> OutcomeView {
        match self {
            ReadLineOutcome::Eof => OutcomeView::Eof,
            ReadLineOutcome::Line(text) => OutcomeView::Line(text@),
            ReadLineOutcome::TooLarge => OutcomeView::TooLarge,
            ReadLineOutcome::Invalid(text) => OutcomeView::Invalid(text@),
        }
    }
}

/// What a line comes to, by its bytes.
pub open spec fn line_outcome(line: Seq<u8>) -> OutcomeView {
    if line.len() > REQUEST_MAX_CHARS {
        OutcomeView::TooLarge
    } else if valid_utf8(line) {
        OutcomeView::Line(decode_utf8(line))
    } else {
        OutcomeView::Invalid("request is not valid UTF-8: "@ + utf8_error_text(line))
    }
}

/// What an event gives where `seen` was read of a line.
pub open spec fn outcome_of(seen: Seq<u8>, event: ReadEvent) -> Option<OutcomeView> {
    match event {
        ReadEvent::Shutdown => Some(OutcomeView::Eof),
        ReadEvent::EndOfInput => if seen.len() == 0 {
            Some(OutcomeView::Eof)
        } else {
            Some(line_outcome(seen))
        },
        ReadEvent::Byte(byte) => if byte == 10 {
            Some(line_outcome(seen))
        } else {
            None
        },
        ReadEvent::Retry => None,
    }
}

/// What is read of a line after an event, where `seen` was read before.
pub open spec fn seen_after(seen: Seq<u8>, event: ReadEvent) -> Seq<u8> {
    match event {
        ReadEvent::Byte(byte) => if byte == 10 {
            Seq::empty()
        } else {
            seen.push(byte)
        },
        ReadEvent::Retry => seen,
        _ => Seq::empty(),
    }
}

/// An optional outcome, by content.
pub open spec fn opt_outcome(outcome: Option<ReadLineOutcome>) -> Option<OutcomeView> {
    match outcome {
        Some(outcome) => Some(outcome@),
        None => None,
    }
}

impl LineReader {
    /// The bytes of the current line that were read so far, however many.
    pub closed spec fn seen(self) -> Seq<u8> {
        self.seen@
    }

    /// What every operation keeps: no more is stored than an acceptable line may hold.
    pub closed spec fn wf(self) -> bool {
        &&& self.too_large <==> self.seen@.len() > REQUEST_MAX_CHARS
        &&& self.bytes@ == (if self.too_large {
            Seq::empty()
        } else {
            self.seen@
        })
    }

    /// The number of bytes that are stored.
    pub closed spec fn stored(self) -> nat {
        self.bytes@.len()
    }

    /// A reader at the start of a line.
    pub fn new() -> (r: LineReader)
        ensures
            r.wf(),
            r.seen() == Seq::<u8>::empty(),
    {
        LineReader { bytes: Vec::new(), too_large: false, seen: Ghost(Seq::empty()) }
    }

    /// Takes in what came from the stream; gives the line where it has ended.
    pub fn read_line_capped(&mut self, event: ReadEvent) -> (r: Option<ReadLineOutcome>)
        requires
            old(self).wf(),
        ensures
            final(self).wf(),
            final(self).stored() <= REQUEST_MAX_CHARS,
            opt_outcome(r) == outcome_of(old(self).seen(), event),
            final(self).seen() == seen_after(old(self).seen(), event),
    {
        match event {
            ReadEvent::Shutdown => {
                self.restart();
                Some(ReadLineOutcome::Eof)
            },
            ReadEvent::EndOfInput => {
                if self.bytes.len() == 0 && !self.too_large {
                    self.restart();
                    return Some(ReadLineOutcome::Eof);
                }
                Some(self.finish())
            },
            ReadEvent::Byte(byte) => {
                if byte == 10 {
                    return Some(self.finish());
                }
                self.seen = Ghost(self.seen@.push(byte));
                if !self.too_large {
                    self.bytes.push(byte);
                    if self.bytes.len() > REQUEST_MAX_CHARS {
                        self.too_large = true;
                        self.bytes.clear();
                    }
                }
                None
            },
            ReadEvent::Retry => None,
        }
    }

    fn restart(&mut self)
        ensures
            final(self).wf(),
            final(self).seen() == Seq::<u8>::empty(),
            final(self).stored() == 0,
    {
        self.bytes = Vec::new();
        self.too_large = false;
        self.seen = Ghost(Seq::empty());
    }

    fn finish(&mut self) -> (r: ReadLineOutcome)
        requires
            old(self).wf(),
        ensures
            final(self).wf(),
            final(self).seen() == Seq::<u8>::empty(),
            final(self).stored() == 0,
            r@ == line_outcome(old(self).seen()),
    {
        let too_large = self.too_large;
        let mut bytes: Vec<u8> = Vec::new();
        bytes.append(&mut self.bytes);
        assert(bytes@ =~= old(self).bytes@);
        self.restart();
        if too_large {
            return ReadLineOutcome::TooLarge;
        }
        match string_from_utf8(bytes) {
            Ok(line) => ReadLineOutcome::Line(line),
            Err(error) => {
                let mut message = "request is not valid UTF-8: ".to_string();
                message.append(error.as_str());
                ReadLineOutcome::Invalid(message)
            },
        }
    }
}

/// What is read of a line after a run of events.
pub open spec fn seen_in(events: Seq<ReadEvent>) -> Seq<u8>
    decreases events.len(),
{
    if events.len() == 0 {
        Seq::empty()
    } else {
        seen_after(seen_in(events.drop_last()), events.last())
    }
}

/// What a run of events gives, in order.
pub open spec fn outcomes_in(events: Seq<ReadEvent>) -> Seq<OutcomeView>
    decreases events.len(),
{
    if events.len() == 0 {
        Seq::empty()
    } else {
        let before = outcomes_in(events.drop_last());
        match outcome_of(seen_in(events.drop_last()), events.last()) {
            Some(outcome) => before.push(outcome),
            None => before,
        }
    }
}

/// The bytes that a run of events brings.
pub open spec fn bytes_in(events: Seq<ReadEvent>) -> Seq<u8>
    decreases events.len(),
{
    if events.len() == 0 {
        Seq::empty()
    } else {
        let before = bytes_in(events.drop_last());
        match events.last() {
            ReadEvent::Byte(byte) => before.push(byte),
            _ => before,
        }
    }
}

/// Whether a run of events brings bytes and pauses only.
pub open spec fn is_reading(events: Seq<ReadEvent>) -> bool {
    forall|i: int|
        0 <= i < events.len() ==> (#[trigger] events[i]) is Byte || events[i] is Retry
}

/// Lines one after the other, each with its line feed.
pub open spec fn joined(lines: Seq<Seq<u8>>) -> Seq<u8>
    decreases lines.len(),
{
    if lines.len() == 0 {
        Seq::empty()
    } else {
        joined(lines.drop_last()) + lines.last().push(10)
    }
}

/// What lines come to.
pub open spec fn line_outcomes(lines: Seq<Seq<u8>>) -> Seq<OutcomeView> {
    lines.map_values(|line: Seq<u8>| line_outcome(line))
}

/// Whether none of the bytes is a line feed.
pub open spec fn within_line(bytes: Seq<u8>) -> bool {
    forall|i: int| 0 <= i < bytes.len() ==> (#[trigger] bytes[i]) != 10
}

/// Lines are read whole and in order: however their bytes come in, with pauses anywhere, each line
/// gives exactly what stood before its line feed, or that it was too long or no UTF-8, and what
/// follows the last line feed is kept.
pub proof fn law_lines_are_read_whole(
    events: Seq<ReadEvent>,
    lines: Seq<Seq<u8>>,
    tail: Seq<u8>,
)
    requires
        is_reading(events),
        forall|i: int| 0 <= i < lines.len() ==> within_line(#[trigger] lines[i]),
        within_line(tail),
        bytes_in(events) == joined(lines) + tail,
    ensures
        outcomes_in(events) == line_outcomes(lines),
        seen_in(events) == tail,
    decreases events.len(),
{
    if events.len() == 0 {
        assert(tail.len() == 0);
        if lines.len() > 0 {
            assert(joined(lines).len() > 0);
        }
        assert(line_outcomes(lines) =~= Seq::empty());
        assert(tail =~= Seq::empty());
    } else {
        let rest = events.drop_last();
        let last = events.last();
        let before = bytes_in(rest);
        assert(last == events[events.len() - 1]);
        assert(is_reading(rest)) by {
            assert forall|i: int| 0 <= i < rest.len() implies (#[trigger] rest[i]) is Byte
                || rest[i] is Retry by {
                assert(rest[i] == events[i]);
            }
        }
        match last {
            ReadEvent::Byte(byte) => {
                let all = before.push(byte);
                assert(all.last() == byte);
                assert(all.drop_last() =~= before);
                if tail.len() > 0 {
                    let shorter = tail.drop_last();
                    assert(all.last() == tail.last());
                    assert(tail[tail.len() - 1] != 10);
                    assert((joined(lines) + tail).drop_last() =~= joined(lines) + shorter);
                    law_lines_are_read_whole(rest, lines, shorter);
                    assert(shorter.push(byte) =~= tail);
                } else {
                    assert(lines.len() > 0) by {
                        if lines.len() == 0 {
                            assert((joined(lines) + tail).len() == 0);
                        }
                    }
                    let shorter = lines.drop_last();
                    let line = lines.last();
                    assert(line == lines[lines.len() - 1]);
                    assert(joined(lines) + tail =~= (joined(shorter) + line).push(10));
                    assert(byte == 10);
                    assert(before =~= joined(shorter) + line);
                    assert forall|i: int| 0 <= i < shorter.len() implies within_line(
                        #[trigger] shorter[i],
                    ) by {
                        assert(shorter[i] == lines[i]);
                    }
                    law_lines_are_read_whole(rest, shorter, line);
                    assert(line_outcomes(lines) =~= line_outcomes(shorter).push(
                        line_outcome(line),
                    ));
                    assert(tail =~= Seq::empty());
                }
            },
            _ => {
                law_lines_are_read_whole(rest, lines, tail);
            },
        }
    }
}

/// The last line needs no line feed: the end of the stream ends it, and where nothing is left of a
/// line, the end of the stream is all that it gives.
pub proof fn law_end_of_stream_ends_the_last_line(
    events: Seq<ReadEvent>,
    lines: Seq<Seq<u8>>,
    tail: Seq<u8>,
)
    requires
        is_reading(events),
        forall|i: int| 0 <= i < lines.len() ==> within_line(#[trigger] lines[i]),
        within_line(tail),
        bytes_in(events) == joined(lines) + tail,
    ensures
        tail.len() > 0 ==> outcomes_in(
            events.push(ReadEvent::EndOfInput).push(ReadEvent::EndOfInput),
        ) == line_outcomes(lines).push(line_outcome(tail)).push(OutcomeView::Eof),
        tail.len() == 0 ==> outcomes_in(events.push(ReadEvent::EndOfInput)) == line_outcomes(
            lines,
        ).push(OutcomeView::Eof),
{
    law_lines_are_read_whole(events, lines, tail);
    let once = events.push(ReadEvent::EndOfInput);
    let twice = once.push(ReadEvent::EndOfInput);
    assert(once.drop_last() =~= events);
    assert(twice.drop_last() =~= once);
    assert(seen_in(once) == Seq::<u8>::empty());
    if tail.len() > 0 {
        assert(outcomes_in(once) == line_outcomes(lines).push(line_outcome(tail)));
        assert(outcome_of(seen_in(once), ReadEvent::EndOfInput) == Some(OutcomeView::Eof));
        assert(outcomes_in(twice) == outcomes_in(once).push(OutcomeView::Eof));
    }
}

/// What a connection does next.
#[derive(Debug, PartialEq, Eq)]
pub enum ConnectionStep {
    /// The connection ends.
    Stop,
    /// The connection ends with an error about the data.
    Fail(String),
    /// An answer goes out.
    Respond(ControlResponse),
    /// Nothing was asked.
    Skip,
    /// The text is to be decoded as a request.
    Decode(String),
}

/// The answer to a line that is too long.
pub open spec fn too_large_view(epoch: Seq<char>) -> ResponseView {
    err_view(
        ""@,
        epoch,
        "invalid_request"@,
        "request exceeds max length of 1048576 characters"@,
    )
}

/// The content of what a connection does next.
#[verifier::ext_equal]
pub enum StepView {
    Stop,
    Fail(Seq<char>),
    Respond(ResponseView),
    Skip,
    Decode(Seq<char>),
}

impl View for ConnectionStep {
    type V = StepView;

    open spec fn view(&self) -> StepView {
        match self {
            ConnectionStep::Stop => StepView::Stop,
            ConnectionStep::Fail(message) => StepView::Fail(message@),
            ConnectionStep::Respond(response) => StepView::Respond(response@),
            ConnectionStep::Skip => StepView::Skip,
            ConnectionStep::Decode(text) => StepView::Decode(text@),
        }
    }
}

/// What a connection does with a line.
pub open spec fn step_of(outcome: OutcomeView, epoch: Seq<char>) -> StepView {
    match outcome {
        OutcomeView::Eof => StepView::Stop,
        OutcomeView::Invalid(message) => StepView::Fail(message),
        OutcomeView::TooLarge => StepView::Respond(too_large_view(epoch)),
        OutcomeView::Line(line) => if blank(line) {
            StepView::Skip
        } else {
            StepView::Decode(trimmed(line))
        },
    }
}

/// What a connection does with a line.
pub fn connection_step(outcome: ReadLineOutcome, epoch: &str) -> (r: ConnectionStep)
    ensures
        r@ == step_of(outcome@, epoch@),
{
    match outcome {
        ReadLineOutcome::Eof => ConnectionStep::Stop,
        ReadLineOutcome::Invalid(message) => ConnectionStep::Fail(message),
        ReadLineOutcome::TooLarge => ConnectionStep::Respond(
            response_err(
                "",
                epoch,
                "invalid_request",
                "request exceeds max length of 1048576 characters",
            ),
        ),
        ReadLineOutcome::Line(line) => {
            let text = trim(line.as_str());
            if text.is_empty() {
                ConnectionStep::Skip
            } else {
                ConnectionStep::Decode(text.to_string())
            }
        },
    }
}

/// The answer to a line that could not be decoded.
pub open spec fn invalid_json_view(epoch: Seq<char>, error: Seq<char>) -> ResponseView {
    err_view(""@, epoch, "invalid_json"@, "failed to parse request JSON: "@ + error)
}

/// The answer to a line that could not be decoded.
pub fn invalid_json_response(epoch: &str, error: &str) -> (r: ControlResponse)
    ensures
        r@ == invalid_json_view(epoch@, error@),
{
    let mut message = "failed to parse request JSON: ".to_string();
    message.append(error);
    response_err("", epoch, "invalid_json", message.as_str())
}

/// Answers a line once it was decoded, or could not be.
pub fn answer_decoded(
    state: &mut ControlState,
    cache: &mut RequestCache,
    decoded: Result<ControlRequest, String>,
) -> (response: ControlResponse)
    requires
        old(cache).wf(),
    ensures
        final(cache).wf(),
        final(state).epoch == old(state).epoch,
        match decoded {
            Ok(request) => exists|events: Seq<EventView>, delivered: Seq<EventView>|
                {
                    &&& final(state).sent() == old(state).sent() + events
                    &&& final(state).delivered() == old(state).delivered() + delivered
                    &&& #[trigger] handled(
                        old(state).epoch@,
                        old(cache)@,
                        request,
                        response@,
                        final(cache)@,
                        events,
                        delivered,
                    )
                },
            Err(error) => {
                &&& response@ == invalid_json_view(old(state).epoch@, error@)
                &&& final(cache)@ == old(cache)@
                &&& final(state).sent() == old(state).sent()
                &&& final(state).delivered() == old(state).delivered()
            },
        },
{
    match decoded {
        Ok(request) => process_request(state, cache, request),
        Err(error) => invalid_json_response(state.epoch.as_str(), error.as_str()),
    }
}

/// What goes out for a line.
#[derive(Debug, PartialEq, Eq)]
pub enum Reply {
    /// The connection ends.
    Stop,
    /// The connection ends with an error about the data.
    Fail(String),
    /// An answer goes out.
    Write(ControlResponse),
    /// Nothing goes out.
    Silence,
}

/// The content of what goes out for a line.
#[verifier::ext_equal]
pub enum ReplyView {
    Stop,
    Fail(Seq<char>),
    Write(ResponseView),
    Silence,
}

impl View for Reply {
    type V = ReplyView;

    open spec fn view(&self) -> ReplyView {
        match self {
            Reply::Stop => ReplyView::Stop,
            Reply::Fail(message) => ReplyView::Fail(message@),
            Reply::Write(response) => ReplyView::Write(response@),
            Reply::Silence => ReplyView::Silence,
        }
    }
}

/// Whether a reply is one to a step: the one that the step fixes, or for a text that is to be
/// decoded, some answer.
pub open spec fn replies_to(step: StepView, reply: ReplyView) -> bool {
    match step {
        StepView::Stop => reply == ReplyView::Stop,
        StepView::Fail(message) => reply == ReplyView::Fail(message),
        StepView::Respond(response) => reply == ReplyView::Write(response),
        StepView::Skip => reply == ReplyView::Silence,
        StepView::Decode(_) => reply is Write,
    }
}

/// What goes out for a line, once a text that is to be decoded was decoded, or could not be.
pub fn answer_step(
    state: &mut ControlState,
    cache: &mut RequestCache,
    step: ConnectionStep,
    decoded: Option<Result<ControlRequest, String>>,
) -> (r: Reply)
    requires
        old(cache).wf(),
        step is Decode <==> decoded is Some,
    ensures
        final(cache).wf(),
        final(state).epoch == old(state).epoch,
        replies_to(step@, r@),
        match decoded {
            None => {
                &&& final(cache)@ == old(cache)@
                &&& final(state).sent() == old(state).sent()
                &&& final(state).delivered() == old(state).delivered()
            },
            Some(Err(error)) => {
                &&& r@ == ReplyView::Write(invalid_json_view(old(state).epoch@, error@))
                &&& final(cache)@ == old(cache)@
                &&& final(state).sent() == old(state).sent()
                &&& final(state).delivered() == old(state).delivered()
            },
            Some(Ok(request)) => exists|events: Seq<EventView>, delivered: Seq<EventView>|
                {
                    &&& final(state).sent() == old(state).sent() + events
                    &&& final(state).delivered() == old(state).delivered() + delivered
                    &&& #[trigger] handled(
                        old(state).epoch@,
                        old(cache)@,
                        request,
                        r@->Write_0,
                        final(cache)@,
                        events,
                        delivered,
                    )
                },
        },
{
    match decoded {
        Some(decoded) => Reply::Write(answer_decoded(state, cache, decoded)),
        None => match step {
            ConnectionStep::Stop => Reply::Stop,
            ConnectionStep::Fail(message) => Reply::Fail(message),
            ConnectionStep::Respond(response) => Reply::Write(response),
            _ => Reply::Silence,
        },
    }
}

/// What goes out for a line where the cache cannot be reached.
pub fn answer_step_without_cache(
    epoch: &str,
    step: ConnectionStep,
    decoded: Option<Result<ControlRequest, String>>,
) -> (r: Reply)
    requires
        step is Decode <==> decoded is Some,
    ensures
        replies_to(step@, r@),
        decoded matches Some(Ok(request)) ==> r@ == ReplyView::Write(
            without_cache_view(request, epoch@),
        ),
        decoded matches Some(Err(error)) ==> r@ == ReplyView::Write(
            invalid_json_view(epoch@, error@),
        ),
{
    match decoded {
        Some(Ok(request)) => Reply::Write(process_request_without_cache(epoch, &request)),
        Some(Err(error)) => Reply::Write(invalid_json_response(epoch, error.as_str())),
        None => match step {
            ConnectionStep::Stop => Reply::Stop,
            ConnectionStep::Fail(message) => Reply::Fail(message),
            ConnectionStep::Respond(response) => Reply::Write(response),
            _ => Reply::Silence,
        },
    }
}

/// Whether a line is owed an answer: it is too long, or it says anything.
pub open spec fn is_owed_answer(line: Seq<u8>) -> bool {
    line.len() > REQUEST_MAX_CHARS || valid_utf8(line) && !blank(decode_utf8(line))
}

/// Whether a line breaks the connection off: it is no UTF-8.
pub open spec fn breaks_off(line: Seq<u8>) -> bool {
    line.len() <= REQUEST_MAX_CHARS && !valid_utf8(line)
}

/// Whether the replies of a connection are those to what was read, one by one.
pub open spec fn replies_in_order(
    outcomes: Seq<OutcomeView>,
    replies: Seq<ReplyView>,
    epoch: Seq<char>,
) -> bool {
    &&& replies.len() == outcomes.len()
    &&& forall|i: int|
        0 <= i < outcomes.len() ==> replies_to(
            step_of(#[trigger] outcomes[i], epoch),
            replies[i],
        )
}

/// The lines that are owed an answer, in order.
pub open spec fn owed(lines: Seq<Seq<u8>>) -> Seq<Seq<u8>>
    decreases lines.len(),
{
    if lines.len() == 0 {
        Seq::empty()
    } else if is_owed_answer(lines.last()) {
        owed(lines.drop_last()).push(lines.last())
    } else {
        owed(lines.drop_last())
    }
}

/// The lines for which an answer went out, in the order of the answers.
pub open spec fn answered(lines: Seq<Seq<u8>>, replies: Seq<ReplyView>) -> Seq<Seq<u8>>
    decreases lines.len(),
{
    if lines.len() == 0 {
        Seq::empty()
    } else {
        let before = answered(lines.drop_last(), replies);
        if replies[lines.len() - 1] is Write {
            before.push(lines.last())
        } else {
            before
        }
    }
}

proof fn lemma_owed_are_answered(
    lines: Seq<Seq<u8>>,
    outcomes: Seq<OutcomeView>,
    replies: Seq<ReplyView>,
    epoch: Seq<char>,
)
    requires
        lines.len() <= outcomes.len(),
        forall|i: int| 0 <= i < lines.len() ==> outcomes[i] == line_outcome(#[trigger] lines[i]),
        replies_in_order(outcomes, replies, epoch),
    ensures
        answered(lines, replies) == owed(lines),
    decreases lines.len(),
{
    if lines.len() > 0 {
        let rest = lines.drop_last();
        let i = lines.len() - 1;
        assert forall|k: int| 0 <= k < rest.len() implies outcomes[k] == line_outcome(
            #[trigger] rest[k],
        ) by {
            assert(rest[k] == lines[k]);
        }
        lemma_owed_are_answered(rest, outcomes, replies, epoch);
        assert(outcomes[i] == line_outcome(lines[i]));
        assert(replies_to(step_of(outcomes[i], epoch), replies[i]));
    }
}

/// Over any run of lines, each line that says anything or is too long gets one answer, in the order
/// of the lines; a blank one gets none; and the connection fails exactly at a line that is no UTF-8.
pub proof fn law_each_line_gets_one_answer(
    events: Seq<ReadEvent>,
    lines: Seq<Seq<u8>>,
    tail: Seq<u8>,
    replies: Seq<ReplyView>,
    epoch: Seq<char>,
    i: int,
)
    requires
        is_reading(events),
        forall|k: int| 0 <= k < lines.len() ==> within_line(#[trigger] lines[k]),
        within_line(tail),
        bytes_in(events) == joined(lines) + tail,
        replies_in_order(outcomes_in(events), replies, epoch),
    ensures
        replies.len() == lines.len(),
        answered(lines, replies) == owed(lines),
        0 <= i < lines.len() ==> {
            &&& replies[i] is Write <==> is_owed_answer(lines[i])
            &&& replies[i] is Fail <==> breaks_off(lines[i])
            &&& lines[i].len() > REQUEST_MAX_CHARS ==> replies[i] == ReplyView::Write(
                too_large_view(epoch),
            )
        },
{
    law_lines_are_read_whole(events, lines, tail);
    let outcomes = outcomes_in(events);
    assert forall|k: int| 0 <= k < lines.len() implies outcomes[k] == line_outcome(
        #[trigger] lines[k],
    ) by {}
    lemma_owed_are_answered(lines, outcomes, replies, epoch);
    if 0 <= i < lines.len() {
        assert(outcomes[i] == line_outcome(lines[i]));
        assert(replies_to(step_of(outcomes[i], epoch), replies[i]));
    }
}

/// What a connection does with a line, by its bytes: one of more than 1048576 bytes is answered with
/// an error, one that is no UTF-8 ends the connection with the reason, one that says nothing is passed
/// over, and every other is decoded, whole but for the white space around it.
pub proof fn law_lines_are_taken_as_they_are(line: Seq<u8>, epoch: Seq<char>)
    ensures
        ({
            let step = step_of(line_outcome(line), epoch);
            let text = decode_utf8(line);
            &&& line.len() > 1048576 ==> step == StepView::Respond(
                ResponseView {
                    request_id: ""@,
                    ok: false,
                    epoch,
                    result: None,
                    error: Some(
                        ErrorView {
                            code: "invalid_request"@,
                            message: "request exceeds max length of 1048576 characters"@,
                        },
                    ),
                },
            )
            &&& line.len() <= 1048576 && !valid_utf8(line) ==> step == StepView::Fail(
                "request is not valid UTF-8: "@ + utf8_error_text(line),
            )
            &&& line.len() <= 1048576 && valid_utf8(line) && !says_something(text) ==> step
                == StepView::Skip
            &&& line.len() <= 1048576 && valid_utf8(line) && says_something(text) ==> exists|
                start: int,
                end: int,
            | #[trigger]
                is_visible_middle(text, start, end) && step == StepView::Decode(
                    text.subrange(start, end),
                )
        }),
{
    let text = decode_utf8(line);
    law_blank_text_says_nothing(text);
    law_trimming_leaves_the_visible_middle(text);
    let (start, end) = choose|start: int, end: int| #[trigger]
        is_visible_middle(text, start, end) && trimmed(text) == text.subrange(start, end);
    assert(is_visible_middle(text, start, end));
}

/// A line that cannot be decoded is answered with an error that says why, under no id.
pub proof fn law_undecodable_lines_are_answered(epoch: Seq<char>, error: Seq<char>)
    ensures
        invalid_json_view(epoch, error).request_id == ""@,
        !invalid_json_view(epoch, error).ok,
        invalid_json_view(epoch, error).epoch == epoch,
        invalid_json_view(epoch, error).result is None,
        invalid_json_view(epoch, error).error == Some(
            ErrorView {
                code: "invalid_json"@,
                message: "failed to parse request JSON: "@ + error,
            },
        ),
{
}

/// A shutdown ends a connection at once, whatever was read of a line, and so does the end of the
/// stream where nothing was; a pause and a byte within a line give nothing.
pub proof fn law_reading_ends_with_the_listener(seen: Seq<u8>, byte: u8, epoch: Seq<char>)
    ensures
        outcome_of(seen, ReadEvent::Shutdown) matches Some(outcome) && step_of(outcome, epoch)
            == StepView::Stop,
        outcome_of(Seq::empty(), ReadEvent::EndOfInput) matches Some(outcome) && step_of(
            outcome,
            epoch,
        ) == StepView::Stop,
        seen_after(seen, ReadEvent::Shutdown).len() == 0,
        seen_after(seen, ReadEvent::EndOfInput).len() == 0,
        outcome_of(seen, ReadEvent::Retry) is None,
        seen_after(seen, ReadEvent::Retry) == seen,
        byte != 10 ==> outcome_of(seen, ReadEvent::Byte(byte)) is None,
        byte != 10 ==> seen_after(seen, ReadEvent::Byte(byte)) == seen.push(byte),
        outcome_of(seen, ReadEvent::Byte(10)) == Some(line_outcome(seen)),
        seen_after(seen, ReadEvent::Byte(10)).len() == 0,
{
}

/// Each step has its reply: an end is an end, an error is told in the same words, an answer goes out
/// as it is, nothing goes out where nothing was asked, and what was decoded is answered.
pub proof fn law_steps_have_their_replies(step: StepView, reply: ReplyView)
    requires
        replies_to(step, reply),
    ensures
        step is Stop <==> reply is Stop,
        step is Skip <==> reply is Silence,
        step is Fail <==> reply is Fail,
        step matches StepView::Fail(message) ==> reply == ReplyView::Fail(message),
        step matches StepView::Respond(response) ==> reply == ReplyView::Write(response),
        step is Respond || step is Decode <==> reply is Write,
{
}

} // verus!
