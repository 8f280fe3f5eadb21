//! The session log: newline-delimited JSON records of what happens in a session, either in a
//! versioned event-stream form for machine consumers or in a legacy debugging form.

use crate::app_event::{AppEvent, ProtocolEvent};
use crate::external_btw::{BtwLog, BtwLogView};
use crate::io_failure::{failure, FailureKind, FailureView, IoFailure};
use crate::json::{
    field, law_first_member_is_found, lookup, member, member_views, text_field, without_field, Json,
    JsonView, Member,
};
use crate::text::{decimal, head_before, opt_view, same_text, text_before, to_decimal};
use crate::thread_id::{uuid_text, ThreadId};
use vstd::prelude::*;
use vstd::string::*;

verus! {

/// The first schema of the event stream.
pub const EVENT_SCHEMA_V1: u32 = 1;

/// The second schema of the event stream, which adds ordering metadata.
pub const EVENT_SCHEMA_V2: u32 = 2;

/// The schema in use where none is asked for.
pub const EVENT_SCHEMA_CURRENT: u32 = EVENT_SCHEMA_V2;

/// The form of the log.
#[derive(Clone, Copy, Debug, PartialEq, Eq, Structural)]
pub enum LogMode {
    Legacy,
    EventStream,
}

/// Where an event stream stands.
#[derive(Debug, PartialEq, Eq)]
pub struct EventStreamState {
    pub schema_version: u32,
    pub seq: u64,
    pub session_epoch: u64,
    pub session_id: Option<String>,
}

/// The content of the state of an event stream.
#[verifier::ext_equal]
pub struct StreamView {
    pub schema_version: u32,
    pub seq: u64,
    pub session_epoch: u64,
    pub session_id: Option<Seq<char>>,
}

impl View for EventStreamState {
    type V = StreamView;

    open spec fn view(&self) -> StreamView {
        StreamView {
            schema_version: self.schema_version,
            seq: self.seq,
            session_epoch: self.session_epoch,
            session_id: opt_view(self.session_id),
        }
    }
}

/// A stream in which nothing was written yet.
pub open spec fn new_stream(schema_version: u32) -> StreamView {
    StreamView { schema_version, seq: 0, session_epoch: 1, session_id: None }
}

/// Whether a schema can be asked for.
pub open spec fn supported(schema_version: u32) -> bool {
    schema_version == EVENT_SCHEMA_V1 || schema_version == EVENT_SCHEMA_V2
}

/// Accepts the supported schemas and no other.
pub fn validate_schema_version(schema_version: u32) -> (r: Result<(), IoFailure>)
    ensures
        r is Ok <==> supported(schema_version),
        r matches Err(error) ==> error@ == unsupported_schema(schema_version),
{
    if schema_version == EVENT_SCHEMA_V1 || schema_version == EVENT_SCHEMA_V2 {
        return Ok(());
    }
    let mut message = "unsupported event schema version `".to_string();
    let number = to_decimal(schema_version as u64);
    message.append(number.as_str());
    message.append("`; supported versions are 1 and 2");
    Err(IoFailure { kind: FailureKind::InvalidInput, message })
}

/// The name of an event type in the event-stream contract.
pub open spec fn contract_event_type(event_type: Seq<char>) -> Seq<char> {
    if event_type == "task_started"@ {
        "turn_started"@
    } else if event_type == "task_complete"@ {
        "turn_complete"@
    } else {
        event_type
    }
}

/// The name of an event type in the event-stream contract.
pub fn normalize_contract_event_type(event_type: &str) -> (r: String)
    ensures
        r@ == contract_event_type(event_type@),
{
    if same_text(event_type, "task_started") {
        "turn_started".to_string()
    } else if same_text(event_type, "task_complete") {
        "turn_complete".to_string()
    } else {
        event_type.to_string()
    }
}

/// The names that the contract uses are their own names in the contract.
pub proof fn law_contract_event_types_are_stable(event_type: Seq<char>)
    ensures
        contract_event_type(contract_event_type(event_type)) == contract_event_type(event_type),
{
    reveal_strlit("task_started");
    reveal_strlit("task_complete");
    reveal_strlit("turn_started");
    reveal_strlit("turn_complete");
    assert("turn_started"@[1] != "task_started"@[1]);
    assert("turn_started"@.len() != "task_complete"@.len());
    assert("turn_complete"@[1] != "task_complete"@[1]);
    assert("turn_complete"@.len() != "task_started"@.len());
}

/// The session id that a stream knows once it has seen an event.
pub open spec fn known_session_id(
    stream: StreamView,
    event_type: Seq<char>,
    payload: JsonView,
) -> Option<Seq<char>> {
    match text_field(payload, "session_id"@) {
        Some(session_id) => if event_type == "session_configured"@ {
            Some(session_id)
        } else {
            stream.session_id
        },
        None => stream.session_id,
    }
}

/// The stream after an event.
pub open spec fn stream_after(
    stream: StreamView,
    event_type: Seq<char>,
    payload: JsonView,
) -> StreamView {
    StreamView {
        seq: (stream.seq + 1) as u64,
        session_id: known_session_id(stream, event_type, payload),
        ..stream
    }
}

/// The session id that a record carries: the given one, else the known one, else none to speak
/// of.
pub open spec fn record_session_id(
    stream: StreamView,
    event_type: Seq<char>,
    payload: JsonView,
    session_id_override: Option<Seq<char>>,
) -> Seq<char> {
    match session_id_override {
        Some(session_id) => session_id,
        None => match known_session_id(stream, event_type, payload) {
            Some(session_id) => session_id,
            None => "unknown"@,
        },
    }
}

/// The record of an event, in the schema of the stream. `after` is the stream after the event.
pub open spec fn record_view(
    after: StreamView,
    ts: Seq<char>,
    session_id: Seq<char>,
    event_type: Seq<char>,
    payload: JsonView,
) -> Option<JsonView> {
    if after.schema_version == EVENT_SCHEMA_V1 {
        Some(
            JsonView::Object(
                seq![
                    ("schema_version"@, JsonView::Unsigned(1)),
                    ("ts"@, JsonView::Text(ts)),
                    ("session_id"@, JsonView::Text(session_id)),
                    ("event_type"@, JsonView::Text(event_type)),
                    ("payload"@, payload),
                ],
            ),
        )
    } else if after.schema_version == EVENT_SCHEMA_V2 {
        Some(
            JsonView::Object(
                seq![
                    ("schema_version"@, JsonView::Unsigned(2)),
                    ("ts"@, JsonView::Text(ts)),
                    ("session_id"@, JsonView::Text(session_id)),
                    ("seq"@, JsonView::Unsigned(after.seq)),
                    ("session_epoch"@, JsonView::Unsigned(after.session_epoch)),
                    ("event_type"@, JsonView::Text(event_type)),
                    ("payload"@, payload),
                ],
            ),
        )
    } else {
        None
    }
}

/// The record that an event leaves in a stream at the time `ts`.
pub open spec fn event_record_view(
    stream: StreamView,
    ts: Seq<char>,
    event_type: Seq<char>,
    payload: JsonView,
    session_id_override: Option<Seq<char>>,
) -> Option<JsonView> {
    record_view(
        stream_after(stream, event_type, payload),
        ts,
        record_session_id(stream, event_type, payload, session_id_override),
        event_type,
        payload,
    )
}

/// An optional record, by content.
pub open spec fn opt_json(record: Option<Json>) -> Option<JsonView> {
    match record {
        Some(json) => Some(json@),
        None => None,
    }
}

impl EventStreamState {
    /// Takes in an event and gives its record, stamped with the time `ts`.
    pub fn record_at(
        &mut self,
        ts: &str,
        event_type: &str,
        payload: Json,
        session_id_override: Option<String>,
    ) -> (r: Option<Json>)
        requires
            old(self).seq < u64::MAX,
        ensures
            final(self)@ == stream_after(old(self)@, event_type@, payload@),
            opt_json(r) == event_record_view(
                old(self)@,
                ts@,
                event_type@,
                payload@,
                opt_view(session_id_override),
            ),
    {
        if same_text(event_type, "session_configured") {
            if let Some(session_id) = payload.get_text("session_id") {
                self.session_id = Some(session_id.to_string());
            }
        }
        self.seq = self.seq + 1;
        assert(self@ =~= stream_after(old(self)@, event_type@, payload@));
        let session_id = match session_id_override {
            Some(session_id) => session_id,
            None => match &self.session_id {
                Some(session_id) => session_id.clone(),
                None => "unknown".to_string(),
            },
        };
        let ghost expected = event_record_view(
            old(self)@,
            ts@,
            event_type@,
            payload@,
            opt_view(session_id_override),
        );
        if self.schema_version == EVENT_SCHEMA_V1 {
            let mut members: Vec<Member> = Vec::new();
            members.push(member("schema_version", Json::Unsigned(1)));
            members.push(member("ts", Json::text(ts)));
            members.push(member("session_id", Json::Text(session_id)));
            members.push(member("event_type", Json::text(event_type)));
            members.push(member("payload", payload));
            let record = Json::object(members);
            assert(record@->Object_0 =~= expected->0->Object_0);
            Some(record)
        } else if self.schema_version == EVENT_SCHEMA_V2 {
            let mut members: Vec<Member> = Vec::new();
            members.push(member("schema_version", Json::Unsigned(2)));
            members.push(member("ts", Json::text(ts)));
            members.push(member("session_id", Json::Text(session_id)));
            members.push(member("seq", Json::Unsigned(self.seq)));
            members.push(member("session_epoch", Json::Unsigned(self.session_epoch)));
            members.push(member("event_type", Json::text(event_type)));
            members.push(member("payload", payload));
            let record = Json::object(members);
            assert(record@->Object_0 =~= expected->0->Object_0);
            Some(record)
        } else {
            None
        }
    }
}

/// Whether two decimal digits stand at an index.
pub open spec fn two_digits_at(ts: Seq<char>, i: int) -> bool {
    '0' <= ts[i] <= '9' && '0' <= ts[i + 1] <= '9'
}

/// A time in UTC: a year, then month, day, hour, minute, second and thousandths of a second, as in
/// `2026-03-01T12:00:00.000Z`.
pub open spec fn is_utc_stamp(ts: Seq<char>) -> bool {
    let tail = ts.len() - 20;
    &&& tail >= 4
    &&& ts[tail] == '-'
    &&& two_digits_at(ts, tail + 1)
    &&& ts[tail + 3] == '-'
    &&& two_digits_at(ts, tail + 4)
    &&& ts[tail + 6] == 'T'
    &&& two_digits_at(ts, tail + 7)
    &&& ts[tail + 9] == ':'
    &&& two_digits_at(ts, tail + 10)
    &&& ts[tail + 12] == ':'
    &&& two_digits_at(ts, tail + 13)
    &&& ts[tail + 15] == '.'
    &&& two_digits_at(ts, tail + 16)
    &&& '0' <= ts[tail + 18] <= '9'
    &&& ts[tail + 19] == 'Z'
}

/// `chrono::Utc::now` through `to_rfc3339_opts`: the current time in UTC, in RFC 3339 form with
/// milliseconds. What is stated is the form; which time it is depends on the clock.
#[verifier::external_body]
fn now_ts() -> (r: String)
    ensures
        is_utc_stamp(r@),
{
    chrono::Utc::now().to_rfc3339_opts(chrono::SecondsFormat::Millis, true)
}

/// The logger of a session. The destination that records are written to is kept elsewhere; here
/// stands whether there is one.
pub struct SessionLogger {
    writer: bool,
    mode: Option<LogMode>,
    event_stream_state: Option<EventStreamState>,
}

/// The content of a logger.
#[verifier::ext_equal]
pub struct LoggerView {
    pub writer: bool,
    pub mode: Option<LogMode>,
    pub stream: Option<StreamView>,
}

impl View for SessionLogger {
    type V = LoggerView;

    closed spec fn view(&self) -> LoggerView {
        LoggerView {
            writer: self.writer,
            mode: self.mode,
            stream: match self.event_stream_state {
                Some(state) => Some(state@),
                None => None,
            },
        }
    }
}

impl LoggerView {
    /// What every operation keeps: a log has a form exactly where it has a destination, one in the
    /// form of an event stream has a stream, and the schema of a stream is supported.
    pub open spec fn wf(self) -> bool {
        &&& self.writer <==> self.mode is Some
        &&& self.mode == Some(LogMode::EventStream) ==> self.stream is Some
        &&& self.stream matches Some(stream) ==> supported(stream.schema_version)
    }

    /// Whether the stream, if there is one, can number another record.
    pub open spec fn can_record(self) -> bool {
        self.stream matches Some(stream) ==> stream.seq < u64::MAX
    }

    /// The logger after a legacy destination was opened. What was set before stays.
    pub open spec fn opened_legacy(self) -> LoggerView {
        LoggerView {
            writer: true,
            mode: match self.mode {
                Some(mode) => Some(mode),
                None => Some(LogMode::Legacy),
            },
            stream: self.stream,
        }
    }

    /// The logger after an event-stream destination was opened. What was set before stays.
    pub open spec fn opened_stream(self, schema_version: u32) -> LoggerView {
        LoggerView {
            writer: true,
            mode: match self.mode {
                Some(mode) => Some(mode),
                None => Some(LogMode::EventStream),
            },
            stream: match self.stream {
                Some(stream) => Some(stream),
                None => Some(new_stream(schema_version)),
            },
        }
    }
}

/// The failure that a schema which is not supported leads to.
pub open spec fn unsupported_schema(schema_version: u32) -> FailureView {
    FailureView {
        kind: FailureKind::InvalidInput,
        message: "unsupported event schema version `"@ + decimal(schema_version as nat)
            + "`; supported versions are 1 and 2"@,
    }
}

/// The logger after an event was taken into its stream.
pub open spec fn logger_after(
    logger: LoggerView,
    event_type: Seq<char>,
    payload: JsonView,
) -> LoggerView {
    LoggerView {
        stream: match logger.stream {
            Some(stream) => Some(stream_after(stream, event_type, payload)),
            None => None,
        },
        ..logger
    }
}

/// The record that an event leaves in the stream of a logger, if it has one.
pub open spec fn logger_record(
    logger: LoggerView,
    ts: Seq<char>,
    event_type: Seq<char>,
    payload: JsonView,
    session_id_override: Option<Seq<char>>,
) -> Option<JsonView> {
    match logger.stream {
        Some(stream) => event_record_view(stream, ts, event_type, payload, session_id_override),
        None => None,
    }
}

/// The text of an optional thread id.
pub open spec fn thread_text(thread_id: Option<ThreadId>) -> Option<Seq<char>> {
    match thread_id {
        Some(thread_id) => Some(uuid_text(thread_id.uuid)),
        None => None,
    }
}

fn thread_to_text(thread_id: Option<ThreadId>) -> (r: Option<String>)
    ensures
        opt_view(r) == thread_text(thread_id),
{
    match thread_id {
        Some(thread_id) => Some(thread_id.to_text()),
        None => None,
    }
}

/// The event type that the message of a protocol event names, in the contract's terms.
pub open spec fn protocol_event_type(msg: JsonView) -> Seq<char> {
    contract_event_type(
        match text_field(msg, "type"@) {
            Some(event_type) => event_type,
            None => "unknown"@,
        },
    )
}

/// The payload that a protocol event leaves in the stream: its message without the type.
pub open spec fn protocol_payload(msg: JsonView) -> JsonView {
    without_field(msg, "type"@)
}

/// A record of the legacy form without anything of its own to say.
pub open spec fn legacy_head(
    ts: Seq<char>,
    dir: Seq<char>,
    kind: Seq<char>,
) -> Seq<(Seq<char>, JsonView)> {
    seq![
        ("ts"@, JsonView::Text(ts)),
        ("dir"@, JsonView::Text(dir)),
        ("kind"@, JsonView::Text(kind)),
    ]
}

fn legacy_members(ts: &str, dir: &str, kind: &str) -> (r: Vec<Member>)
    ensures
        member_views(r@) == legacy_head(ts@, dir@, kind@),
{
    let mut members: Vec<Member> = Vec::new();
    members.push(member("ts", Json::text(ts)));
    members.push(member("dir", Json::text(dir)));
    members.push(member("kind", Json::text(kind)));
    assert(member_views(members@) =~= legacy_head(ts@, dir@, kind@));
    members
}

/// The record of an encoded value in the legacy form.
pub open spec fn legacy_record_view(
    ts: Seq<char>,
    dir: Seq<char>,
    kind: Seq<char>,
    payload: JsonView,
) -> JsonView {
    JsonView::Object(legacy_head(ts, dir, kind).push(("payload"@, payload)))
}

/// The record of an encoded value in the legacy form.
pub fn write_legacy_record(ts: &str, dir: &str, kind: &str, payload: Json) -> (r: Json)
    ensures
        r@ == legacy_record_view(ts@, dir@, kind@, payload@),
{
    let mut members = legacy_members(ts, dir, kind);
    let ghost head = members@;
    members.push(member("payload", payload));
    let r = Json::object(members);
    assert(r@->Object_0 =~= member_views(head).push(("payload"@, payload@)));
    r
}

/// The record that an event of the application leaves in the legacy form. `debug` is the debug
/// rendering of the event; what it says before the first parenthesis names an event that has no
/// form of its own.
pub open spec fn legacy_inbound_view(ts: Seq<char>, event: AppEvent, debug: Seq<char>) -> JsonView {
    let dir = "to_tui"@;
    match event {
        AppEvent::CodexEvent(event) => legacy_record_view(
            ts,
            dir,
            "codex_event"@,
            event.encoded@,
        ),
        AppEvent::NewSession => JsonView::Object(legacy_head(ts, dir, "new_session"@)),
        AppEvent::ClearUi => JsonView::Object(legacy_head(ts, dir, "clear_ui"@)),
        AppEvent::InsertHistoryCell { transcript_lines } => JsonView::Object(
            legacy_head(ts, dir, "insert_history_cell"@).push(
                ("lines"@, JsonView::Unsigned(transcript_lines as u64)),
            ),
        ),
        AppEvent::StartFileSearch(query) => JsonView::Object(
            legacy_head(ts, dir, "file_search_start"@).push(("query"@, JsonView::Text(query@))),
        ),
        AppEvent::FileSearchResult { query, matches } => JsonView::Object(
            legacy_head(ts, dir, "file_search_result"@).push(
                ("query"@, JsonView::Text(query@)),
            ).push(("matches"@, JsonView::Unsigned(matches@.len() as u64))),
        ),
        _ => JsonView::Object(
            legacy_head(ts, dir, "app_event"@).push(
                ("variant"@, JsonView::Text(head_before(debug, '('))),
            ),
        ),
    }
}

fn legacy_with(ts: &str, kind: &str, key: &str, value: Json) -> (r: Json)
    ensures
        r@ == JsonView::Object(legacy_head(ts@, "to_tui"@, kind@).push((key@, value@))),
{
    let mut members = legacy_members(ts, "to_tui", kind);
    let ghost head = members@;
    members.push(member(key, value));
    let r = Json::object(members);
    assert(r@->Object_0 =~= member_views(head).push((key@, value@)));
    r
}

/// The record that an event of the application leaves in the legacy form.
pub fn legacy_inbound(ts: &str, event: &AppEvent, debug: &str) -> (r: Json)
    ensures
        r@ == legacy_inbound_view(ts@, *event, debug@),
{
    match event {
        AppEvent::CodexEvent(event) => write_legacy_record(
            ts,
            "to_tui",
            "codex_event",
            event.encoded.duplicate(),
        ),
        AppEvent::NewSession => Json::object(legacy_members(ts, "to_tui", "new_session")),
        AppEvent::ClearUi => Json::object(legacy_members(ts, "to_tui", "clear_ui")),
        AppEvent::InsertHistoryCell { transcript_lines } => legacy_with(
            ts,
            "insert_history_cell",
            "lines",
            Json::Unsigned(*transcript_lines as u64),
        ),
        AppEvent::StartFileSearch(query) => legacy_with(
            ts,
            "file_search_start",
            "query",
            Json::text(query.as_str()),
        ),
        AppEvent::FileSearchResult { query, matches } => {
            let mut members = legacy_members(ts, "to_tui", "file_search_result");
            let ghost head = members@;
            members.push(member("query", Json::text(query.as_str())));
            members.push(member("matches", Json::Unsigned(matches.len() as u64)));
            let r = Json::object(members);
            assert(r@->Object_0 =~= member_views(head).push(
                ("query"@, JsonView::Text(query@)),
            ).push(("matches"@, JsonView::Unsigned(matches@.len() as u64))));
            r
        },
        _ => {
            let variant = text_before(debug, '(');
            legacy_with(ts, "app_event", "variant", Json::Text(variant))
        },
    }
}

/// What an event of the application does to a logger.
pub open spec fn inbound_after(logger: LoggerView, event: AppEvent) -> LoggerView {
    if !logger.writer || logger.mode != Some(LogMode::EventStream) {
        logger
    } else {
        match event {
            AppEvent::CodexEvent(ProtocolEvent { msg: Some(msg), .. }) => logger_after(
                logger,
                protocol_event_type(msg@),
                protocol_payload(msg@),
            ),
            AppEvent::ThreadEvent { event: ProtocolEvent { msg: Some(msg), .. }, .. } =>
                logger_after(logger, protocol_event_type(msg@), protocol_payload(msg@)),
            _ => logger,
        }
    }
}

/// The record that a protocol event leaves in the stream of a logger.
pub open spec fn protocol_record(
    logger: LoggerView,
    ts: Seq<char>,
    event: ProtocolEvent,
    thread_id: Option<ThreadId>,
) -> Option<JsonView> {
    match event.msg {
        Some(msg) => logger_record(
            logger,
            ts,
            protocol_event_type(msg@),
            protocol_payload(msg@),
            thread_text(thread_id),
        ),
        None => None,
    }
}

/// The record that an event of the application leaves in a log.
pub open spec fn inbound_record(
    logger: LoggerView,
    ts: Seq<char>,
    event: AppEvent,
    debug: Seq<char>,
) -> Option<JsonView> {
    if !logger.writer {
        None
    } else {
        match logger.mode {
            Some(LogMode::EventStream) => match event {
                AppEvent::CodexEvent(event) => protocol_record(logger, ts, event, None),
                AppEvent::ThreadEvent { thread_id, event } => protocol_record(
                    logger,
                    ts,
                    event,
                    Some(thread_id),
                ),
                _ => None,
            },
            Some(LogMode::Legacy) => Some(legacy_inbound_view(ts, event, debug)),
            None => None,
        }
    }
}

/// What a submitted command does to a logger.
pub open spec fn outbound_after(logger: LoggerView, payload: Option<JsonView>) -> LoggerView {
    if logger.writer && logger.mode == Some(LogMode::EventStream) && payload is Some {
        logger_after(logger, "op_submitted"@, payload->0)
    } else {
        logger
    }
}

/// The record that a submitted command leaves in a log.
pub open spec fn outbound_record(
    logger: LoggerView,
    ts: Seq<char>,
    payload: Option<JsonView>,
    thread_id: Option<ThreadId>,
) -> Option<JsonView> {
    if !logger.writer || payload is None {
        None
    } else {
        match logger.mode {
            Some(LogMode::EventStream) => logger_record(
                logger,
                ts,
                "op_submitted"@,
                payload->0,
                thread_text(thread_id),
            ),
            Some(LogMode::Legacy) => Some(
                legacy_record_view(ts, "from_tui"@, "op"@, payload->0),
            ),
            None => None,
        }
    }
}

/// What an event that only event streams keep does to a logger.
pub open spec fn stream_event_after(
    logger: LoggerView,
    event_type: Seq<char>,
    payload: JsonView,
) -> LoggerView {
    if logger.mode == Some(LogMode::EventStream) {
        logger_after(logger, event_type, payload)
    } else {
        logger
    }
}

/// The record that an event which only event streams keep leaves in a log.
pub open spec fn stream_event_record(
    logger: LoggerView,
    ts: Seq<char>,
    event_type: Seq<char>,
    payload: JsonView,
) -> Option<JsonView> {
    if logger.mode == Some(LogMode::EventStream) {
        logger_record(logger, ts, event_type, payload, None)
    } else {
        None
    }
}

/// An object without members.
pub open spec fn empty_object() -> JsonView {
    JsonView::Object(Seq::empty())
}

/// What the end of the session does to a logger.
pub open spec fn end_after(logger: LoggerView) -> LoggerView {
    if logger.writer && logger.mode == Some(LogMode::EventStream) {
        logger_after(logger, "session_end"@, empty_object())
    } else {
        logger
    }
}

/// The record that the end of the session leaves in a log.
pub open spec fn end_record(logger: LoggerView, ts: Seq<char>) -> Option<JsonView> {
    if !logger.writer {
        None
    } else {
        match logger.mode {
            Some(LogMode::EventStream) => logger_record(
                logger,
                ts,
                "session_end"@,
                empty_object(),
                None,
            ),
            Some(LogMode::Legacy) => Some(
                JsonView::Object(legacy_head(ts, "meta"@, "session_end"@)),
            ),
            None => None,
        }
    }
}

/// The logger after a stream was opened and its first record was made.
pub open spec fn started_logger(
    logger: LoggerView,
    schema_version: u32,
    info: SessionInfo,
) -> LoggerView {
    logger_after(
        logger.opened_stream(schema_version),
        "session_start"@,
        JsonView::Object(session_info_members(info)),
    )
}

/// The first record of a stream that was opened, at the time `ts`.
pub open spec fn start_record(
    logger: LoggerView,
    ts: Seq<char>,
    schema_version: u32,
    info: SessionInfo,
) -> Option<JsonView> {
    logger_record(
        logger.opened_stream(schema_version),
        ts,
        "session_start"@,
        JsonView::Object(session_info_members(info)),
        None,
    )
}

/// An event stream that was opened: whether its destination is the one to write to, and the record
/// to write first.
#[derive(Debug, PartialEq, Eq)]
pub struct StreamStart {
    pub installed: bool,
    pub record: Json,
}

impl SessionLogger {
    /// What every operation keeps.
    pub open spec fn wf(self) -> bool {
        self@.wf()
    }

    /// Whether the stream, if there is one, can number another record.
    pub open spec fn can_record(self) -> bool {
        self@.can_record()
    }

    /// A logger without a destination.
    pub fn new() -> (r: SessionLogger)
        ensures
            r.wf(),
            r@ == (LoggerView { writer: false, mode: None, stream: None }),
    {
        SessionLogger { writer: false, mode: None, event_stream_state: None }
    }

    /// Whether the stream, if there is one, can number another record.
    pub fn has_room(&self) -> (r: bool)
        ensures
            r == self.can_record(),
    {
        match &self.event_stream_state {
            Some(state) => state.seq < u64::MAX,
            None => true,
        }
    }

    /// Takes note of an opened legacy destination. What was set before stays; the result tells
    /// whether the destination is the one to write to.
    pub fn open_legacy(&mut self) -> (installed: bool)
        requires
            old(self).wf(),
        ensures
            final(self).wf(),
            installed == !old(self)@.writer,
            final(self)@ == old(self)@.opened_legacy(),
    {
        let installed = !self.writer;
        self.writer = true;
        if self.mode.is_none() {
            self.mode = Some(LogMode::Legacy);
        }
        installed
    }

    /// Takes note of an opened event-stream destination, if its schema is supported. What was set
    /// before stays; the result tells whether the destination is the one to write to.
    pub fn open_event_stream(&mut self, schema_version: u32) -> (r: Result<bool, IoFailure>)
        requires
            old(self).wf(),
        ensures
            final(self).wf(),
            r is Ok <==> supported(schema_version),
            r matches Err(error) ==> error@ == unsupported_schema(schema_version) && final(self)@
                == old(self)@,
            r matches Ok(installed) ==> installed == !old(self)@.writer && final(self)@
                == old(self)@.opened_stream(schema_version),
    {
        match validate_schema_version(schema_version) {
            Ok(()) => {},
            Err(error) => {
                return Err(error);
            },
        }
        let installed = !self.writer;
        self.writer = true;
        if self.mode.is_none() {
            self.mode = Some(LogMode::EventStream);
        }
        if self.event_stream_state.is_none() {
            self.event_stream_state = Some(
                EventStreamState { schema_version, seq: 0, session_epoch: 1, session_id: None },
            );
        }
        assert(self@ =~= old(self)@.opened_stream(schema_version));
        Ok(installed)
    }

    /// Takes note of an opened event-stream destination, if its schema is supported, and gives the
    /// first record to write to it, which describes the session, stamped with the time `ts`.
    pub fn start_event_stream_at(&mut self, ts: &str, schema_version: u32, info: &SessionInfo) -> (r:
        Result<StreamStart, IoFailure>)
        requires
            old(self).wf(),
            old(self).can_record(),
        ensures
            final(self).wf(),
            r is Ok <==> supported(schema_version),
            r matches Err(error) ==> error@ == unsupported_schema(schema_version) && final(self)@
                == old(self)@,
            r matches Ok(start) ==> {
                &&& start.installed == !old(self)@.writer
                &&& final(self)@ == started_logger(old(self)@, schema_version, *info)
                &&& Some(start.record@) == start_record(old(self)@, ts@, schema_version, *info)
            },
    {
        let installed = match self.open_event_stream(schema_version) {
            Ok(installed) => installed,
            Err(error) => {
                return Err(error);
            },
        };
        let payload = session_start_payload(info);
        let record = self.event_stream_record_at(ts, "session_start", payload, None);
        Ok(StreamStart { installed, record: record.unwrap() })
    }

    /// Takes note of an opened event-stream destination, if its schema is supported, and gives the
    /// first record to write to it, stamped with the current time.
    pub fn start_event_stream(&mut self, schema_version: u32, info: &SessionInfo) -> (r: Result<
        StreamStart,
        IoFailure,
    >)
        requires
            old(self).wf(),
            old(self).can_record(),
        ensures
            final(self).wf(),
            r is Ok <==> supported(schema_version),
            r matches Err(error) ==> error@ == unsupported_schema(schema_version) && final(self)@
                == old(self)@,
            r matches Ok(start) ==> {
                &&& start.installed == !old(self)@.writer
                &&& final(self)@ == started_logger(old(self)@, schema_version, *info)
                &&& exists|ts: Seq<char>|
                    is_utc_stamp(ts) && Some(start.record@) == #[trigger] start_record(
                        old(self)@,
                        ts,
                        schema_version,
                        *info,
                    )
            },
    {
        let ts = now_ts();
        self.start_event_stream_at(ts.as_str(), schema_version, info)
    }

    /// The form of the log, once one is open.
    pub fn mode(&self) -> (r: Option<LogMode>)
        ensures
            r == self@.mode,
    {
        self.mode
    }

    /// Whether there is a destination.
    pub fn is_enabled(&self) -> (r: bool)
        ensures
            r == self@.writer,
    {
        self.writer
    }

    /// Takes an event into the stream and gives its record, stamped with the time `ts`.
    pub fn event_stream_record_at(
        &mut self,
        ts: &str,
        event_type: &str,
        payload: Json,
        session_id_override: Option<String>,
    ) -> (r: Option<Json>)
        requires
            old(self).wf(),
            old(self).can_record(),
        ensures
            final(self).wf(),
            final(self)@ == logger_after(old(self)@, event_type@, payload@),
            opt_json(r) == logger_record(
                old(self)@,
                ts@,
                event_type@,
                payload@,
                opt_view(session_id_override),
            ),
    {
        match self.event_stream_state.take() {
            Some(state) => {
                let mut state = state;
                let r = state.record_at(ts, event_type, payload, session_id_override);
                self.event_stream_state = Some(state);
                r
            },
            None => None,
        }
    }

    /// Takes an event into the stream and gives its record, stamped with the current time.
    pub fn write_event_stream_record(
        &mut self,
        event_type: &str,
        payload: Json,
        session_id_override: Option<String>,
    ) -> (r: Option<Json>)
        requires
            old(self).wf(),
            old(self).can_record(),
        ensures
            final(self).wf(),
            final(self)@ == logger_after(old(self)@, event_type@, payload@),
            exists|ts: Seq<char>|
                is_utc_stamp(ts) && opt_json(r) == #[trigger] logger_record(
                    old(self)@,
                    ts,
                    event_type@,
                    payload@,
                    opt_view(session_id_override),
                ),
    {
        let ts = now_ts();
        self.event_stream_record_at(ts.as_str(), event_type, payload, session_id_override)
    }

    /// Takes in an event that only a log in the form of an event stream keeps, and gives its record,
    /// stamped with the time `ts`.
    pub fn stream_event_at(&mut self, ts: &str, event_type: &str, payload: Json) -> (r: Option<Json>)
        requires
            old(self).wf(),
            old(self).can_record(),
        ensures
            final(self).wf(),
            final(self)@ == stream_event_after(old(self)@, event_type@, payload@),
            opt_json(r) == stream_event_record(old(self)@, ts@, event_type@, payload@),
    {
        match self.mode() {
            Some(LogMode::EventStream) => self.event_stream_record_at(
                ts,
                event_type,
                payload,
                None,
            ),
            _ => None,
        }
    }

    /// Takes in an event that only a log in the form of an event stream keeps, and gives its record,
    /// stamped with the current time.
    pub fn log_stream_event(&mut self, event_type: &str, payload: Json) -> (r: Option<Json>)
        requires
            old(self).wf(),
            old(self).can_record(),
        ensures
            final(self).wf(),
            final(self)@ == stream_event_after(old(self)@, event_type@, payload@),
            exists|ts: Seq<char>|
                is_utc_stamp(ts) && opt_json(r) == #[trigger] stream_event_record(
                    old(self)@,
                    ts,
                    event_type@,
                    payload@,
                ),
    {
        let ts = now_ts();
        self.stream_event_at(ts.as_str(), event_type, payload)
    }

    /// Takes a protocol event into the stream and gives its record, stamped with the time `ts`.
    pub fn protocol_event_at(
        &mut self,
        ts: &str,
        event: &ProtocolEvent,
        thread_id: Option<ThreadId>,
    ) -> (r: Option<Json>)
        requires
            old(self).wf(),
            old(self).can_record(),
        ensures
            final(self).wf(),
            final(self)@ == (match event.msg {
                Some(msg) => logger_after(
                    old(self)@,
                    protocol_event_type(msg@),
                    protocol_payload(msg@),
                ),
                None => old(self)@,
            }),
            opt_json(r) == protocol_record(old(self)@, ts@, *event, thread_id),
    {
        match &event.msg {
            Some(msg) => {
                let event_type = match msg.get_text("type") {
                    Some(event_type) => normalize_contract_event_type(event_type),
                    None => normalize_contract_event_type("unknown"),
                };
                let payload = msg.duplicate().without("type");
                self.event_stream_record_at(
                    ts,
                    event_type.as_str(),
                    payload,
                    thread_to_text(thread_id),
                )
            },
            None => None,
        }
    }

    /// Takes a protocol event into the stream and gives its record, stamped with the current
    /// time.
    pub fn write_protocol_event(&mut self, event: &ProtocolEvent, thread_id: Option<ThreadId>) -> (r:
        Option<Json>)
        requires
            old(self).wf(),
            old(self).can_record(),
        ensures
            final(self).wf(),
            final(self)@ == (match event.msg {
                Some(msg) => logger_after(
                    old(self)@,
                    protocol_event_type(msg@),
                    protocol_payload(msg@),
                ),
                None => old(self)@,
            }),
            exists|ts: Seq<char>|
                is_utc_stamp(ts) && opt_json(r) == #[trigger] protocol_record(old(self)@, ts, *event, thread_id),
    {
        let ts = now_ts();
        self.protocol_event_at(ts.as_str(), event, thread_id)
    }

    /// Takes in an event of the application and gives its record, stamped with the time `ts`.
    pub fn inbound_app_event_at(&mut self, ts: &str, event: &AppEvent, debug: &str) -> (r: Option<
        Json,
    >)
        requires
            old(self).wf(),
            old(self).can_record(),
        ensures
            final(self).wf(),
            final(self)@ == inbound_after(old(self)@, *event),
            opt_json(r) == inbound_record(old(self)@, ts@, *event, debug@),
    {
        if !self.is_enabled() {
            return None;
        }
        match self.mode() {
            Some(LogMode::EventStream) => match event {
                AppEvent::CodexEvent(event) => self.protocol_event_at(ts, event, None),
                AppEvent::ThreadEvent { thread_id, event } => self.protocol_event_at(
                    ts,
                    event,
                    Some(*thread_id),
                ),
                _ => None,
            },
            Some(LogMode::Legacy) => Some(legacy_inbound(ts, event, debug)),
            None => None,
        }
    }

    /// Takes in an event of the application and gives its record, stamped with the current time.
    pub fn log_inbound_app_event(&mut self, event: &AppEvent, debug: &str) -> (r: Option<Json>)
        requires
            old(self).wf(),
            old(self).can_record(),
        ensures
            final(self).wf(),
            final(self)@ == inbound_after(old(self)@, *event),
            exists|ts: Seq<char>|
                is_utc_stamp(ts) && opt_json(r) == #[trigger] inbound_record(old(self)@, ts, *event, debug@),
    {
        let ts = now_ts();
        self.inbound_app_event_at(ts.as_str(), event, debug)
    }

    /// Takes in a submitted command, in its encoded form if it has one, and gives its record,
    /// stamped with the time `ts`.
    pub fn outbound_op_at(
        &mut self,
        ts: &str,
        payload: Option<Json>,
        thread_id: Option<ThreadId>,
    ) -> (r: Option<Json>)
        requires
            old(self).wf(),
            old(self).can_record(),
            old(self)@.writer && old(self)@.mode == Some(LogMode::Legacy) ==> payload is Some,
        ensures
            final(self).wf(),
            final(self)@ == outbound_after(old(self)@, opt_json(payload)),
            opt_json(r) == outbound_record(old(self)@, ts@, opt_json(payload), thread_id),
    {
        if !self.is_enabled() {
            return None;
        }
        match payload {
            Some(payload) => match self.mode() {
                Some(LogMode::EventStream) => self.event_stream_record_at(
                    ts,
                    "op_submitted",
                    payload,
                    thread_to_text(thread_id),
                ),
                Some(LogMode::Legacy) => Some(write_legacy_record(ts, "from_tui", "op", payload)),
                None => None,
            },
            None => None,
        }
    }

    /// Takes in a submitted command, in its encoded form if it has one, and gives its record,
    /// stamped with the current time.
    pub fn log_outbound_op(&mut self, payload: Option<Json>, thread_id: Option<ThreadId>) -> (r:
        Option<Json>)
        requires
            old(self).wf(),
            old(self).can_record(),
            old(self)@.writer && old(self)@.mode == Some(LogMode::Legacy) ==> payload is Some,
        ensures
            final(self).wf(),
            final(self)@ == outbound_after(old(self)@, opt_json(payload)),
            exists|ts: Seq<char>|
                is_utc_stamp(ts) && opt_json(r) == #[trigger] outbound_record(
                    old(self)@,
                    ts,
                    opt_json(payload),
                    thread_id,
                ),
    {
        let ts = now_ts();
        self.outbound_op_at(ts.as_str(), payload, thread_id)
    }

    /// Takes in the end of the session and gives its record, stamped with the time `ts`.
    pub fn session_end_at(&mut self, ts: &str) -> (r: Option<Json>)
        requires
            old(self).wf(),
            old(self).can_record(),
        ensures
            final(self).wf(),
            final(self)@ == end_after(old(self)@),
            opt_json(r) == end_record(old(self)@, ts@),
    {
        if !self.is_enabled() {
            return None;
        }
        match self.mode() {
            Some(LogMode::EventStream) => {
                let payload = Json::object(Vec::new());
                assert(payload@->Object_0 =~= Seq::<(Seq<char>, JsonView)>::empty());
                self.event_stream_record_at(ts, "session_end", payload, None)
            },
            Some(LogMode::Legacy) => Some(
                Json::object(legacy_members(ts, "meta", "session_end")),
            ),
            None => None,
        }
    }

    /// Takes in the end of the session and gives its record, stamped with the current time.
    pub fn log_session_end(&mut self) -> (r: Option<Json>)
        requires
            old(self).wf(),
            old(self).can_record(),
        ensures
            final(self).wf(),
            final(self)@ == end_after(old(self)@),
            exists|ts: Seq<char>| is_utc_stamp(ts) && opt_json(r) == #[trigger] end_record(old(self)@, ts),
    {
        let ts = now_ts();
        self.session_end_at(ts.as_str())
    }
}

/// The value of an optional thread id.
pub open spec fn thread_json(thread_id: Option<ThreadId>) -> JsonView {
    match thread_text(thread_id) {
        Some(text) => JsonView::Text(text),
        None => JsonView::Null,
    }
}

fn thread_value(thread_id: Option<ThreadId>) -> (r: Json)
    ensures
        r@ == thread_json(thread_id),
{
    match thread_id {
        Some(thread_id) => Json::Text(thread_id.to_text()),
        None => Json::Null,
    }
}

/// The name of the event that an entry about a side conversation is in the stream.
pub open spec fn btw_event_type(entry: BtwLogView) -> Seq<char> {
    match entry {
        BtwLogView::Started { .. } => "btw_started"@,
        BtwLogView::Completed { .. } => "btw_completed"@,
        BtwLogView::Failed { .. } => "btw_failed"@,
    }
}

/// The members that every entry about a side conversation has.
pub open spec fn btw_head(
    request_id: Seq<char>,
    parent_thread_id: Option<ThreadId>,
    thread_id: Option<ThreadId>,
) -> Seq<(Seq<char>, JsonView)> {
    seq![
        ("request_id"@, JsonView::Text(request_id)),
        ("parent_thread_id"@, thread_json(parent_thread_id)),
        ("thread_id"@, thread_json(thread_id)),
    ]
}

/// The payload of an entry about a side conversation in the stream.
pub open spec fn btw_payload(entry: BtwLogView) -> JsonView {
    JsonView::Object(
        match entry {
            BtwLogView::Started { request_id, parent_thread_id, thread_id } => btw_head(
                request_id,
                Some(parent_thread_id),
                Some(thread_id),
            ),
            BtwLogView::Completed { request_id, parent_thread_id, thread_id, answer } => btw_head(
                request_id,
                Some(parent_thread_id),
                Some(thread_id),
            ).push(("answer"@, JsonView::Text(answer))),
            BtwLogView::Failed { request_id, parent_thread_id, thread_id, error } => btw_head(
                request_id,
                parent_thread_id,
                thread_id,
            ).push(("error"@, JsonView::Text(error))),
        },
    )
}

fn btw_members(
    request_id: &str,
    parent_thread_id: Option<ThreadId>,
    thread_id: Option<ThreadId>,
) -> (r: Vec<Member>)
    ensures
        member_views(r@) == btw_head(request_id@, parent_thread_id, thread_id),
{
    let mut members: Vec<Member> = Vec::new();
    members.push(member("request_id", Json::text(request_id)));
    members.push(member("parent_thread_id", thread_value(parent_thread_id)));
    members.push(member("thread_id", thread_value(thread_id)));
    assert(member_views(members@) =~= btw_head(request_id@, parent_thread_id, thread_id));
    members
}

/// An entry about a side conversation in the stream: its event type and its payload.
pub fn btw_record(entry: &BtwLog) -> (r: (String, Json))
    ensures
        r.0@ == btw_event_type(entry@),
        r.1@ == btw_payload(entry@),
{
    match entry {
        BtwLog::Started { request_id, parent_thread_id, thread_id } => (
            "btw_started".to_string(),
            Json::object(
                btw_members(request_id.as_str(), Some(*parent_thread_id), Some(*thread_id)),
            ),
        ),
        BtwLog::Completed { request_id, parent_thread_id, thread_id, answer } => {
            let mut members = btw_members(
                request_id.as_str(),
                Some(*parent_thread_id),
                Some(*thread_id),
            );
            let ghost head = members@;
            members.push(member("answer", Json::text(answer.as_str())));
            assert(member_views(members@) =~= member_views(head).push(
                ("answer"@, JsonView::Text(answer@)),
            ));
            ("btw_completed".to_string(), Json::object(members))
        },
        BtwLog::Failed { request_id, parent_thread_id, thread_id, error } => {
            let mut members = btw_members(request_id.as_str(), *parent_thread_id, *thread_id);
            let ghost head = members@;
            members.push(member("error", Json::text(error.as_str())));
            assert(member_views(members@) =~= member_views(head).push(
                ("error"@, JsonView::Text(error@)),
            ));
            ("btw_failed".to_string(), Json::object(members))
        },
    }
}

/// Where an event stream goes.
#[derive(Debug, PartialEq, Eq)]
pub enum StreamSink {
    Stdout,
    Stderr,
    File(String),
}

/// Where an event stream goes, if its schema is supported: to a file, or for `-` to standard
/// output, unless a terminal is attached there, which belongs to the interface.
pub fn event_stream_sink(target: &str, schema_version: u32, stdout_is_terminal: bool) -> (r: Result<
    StreamSink,
    IoFailure,
>)
    ensures
        r is Ok <==> supported(schema_version),
        r matches Err(error) ==> error@ == unsupported_schema(schema_version),
        r matches Ok(sink) ==> if target@ == "-"@ {
            sink == if stdout_is_terminal {
                StreamSink::Stderr
            } else {
                StreamSink::Stdout
            }
        } else {
            sink matches StreamSink::File(path) && path@ == target@
        },
{
    match validate_schema_version(schema_version) {
        Ok(()) => {},
        Err(error) => {
            return Err(error);
        },
    }
    if same_text(target, "-") {
        if stdout_is_terminal {
            Ok(StreamSink::Stderr)
        } else {
            Ok(StreamSink::Stdout)
        }
    } else {
        Ok(StreamSink::File(target.to_string()))
    }
}

/// How a session is to be logged.
#[derive(Debug, PartialEq, Eq)]
pub enum InitPlan {
    Disabled,
    EventStream { target: String, schema_version: u32 },
    /// With the path that was asked for, if one was.
    Legacy { path: Option<String> },
}

/// Whether the environment asks for a legacy log.
pub open spec fn asks_for_record(value: Option<Seq<char>>) -> bool {
    value matches Some(v) && (v == "1"@ || v == "true"@ || v == "TRUE"@ || v == "yes"@ || v
        == "YES"@)
}

/// How a session is to be logged, by the command line and the environment. A schema without a
/// stream is an error.
pub fn plan_init(
    event_stream: Option<String>,
    event_schema_version: Option<u32>,
    record_session: Option<String>,
    session_log_path: Option<String>,
) -> (r: Result<InitPlan, IoFailure>)
    ensures
        r is Err <==> event_stream is None && event_schema_version is Some,
        r matches Err(error) ==> error@ == (FailureView {
            kind: FailureKind::InvalidInput,
            message: "--event-schema-version requires --event-stream"@,
        }),
        event_stream matches Some(target) ==> r == Ok::<InitPlan, IoFailure>(
            InitPlan::EventStream {
                target,
                schema_version: match event_schema_version {
                    Some(version) => version,
                    None => EVENT_SCHEMA_CURRENT,
                },
            },
        ),
        event_stream is None && event_schema_version is None ==> r == Ok::<InitPlan, IoFailure>(
            if asks_for_record(opt_view(record_session)) {
                InitPlan::Legacy { path: session_log_path }
            } else {
                InitPlan::Disabled
            },
        ),
{
    match event_stream {
        Some(target) => {
            let schema_version = match event_schema_version {
                Some(version) => version,
                None => EVENT_SCHEMA_CURRENT,
            };
            Ok(InitPlan::EventStream { target, schema_version })
        },
        None => {
            if event_schema_version.is_some() {
                return Err(
                    failure(
                        FailureKind::InvalidInput,
                        "--event-schema-version requires --event-stream",
                    ),
                );
            }
            let enabled = match &record_session {
                Some(v) => {
                    let v = v.as_str();
                    same_text(v, "1") || same_text(v, "true") || same_text(v, "TRUE") || same_text(
                        v,
                        "yes",
                    ) || same_text(v, "YES")
                },
                None => false,
            };
            if enabled {
                Ok(InitPlan::Legacy { path: session_log_path })
            } else {
                Ok(InitPlan::Disabled)
            }
        },
    }
}

/// The name of a legacy log file, by the time of its creation.
pub fn session_log_filename(stamp: &str) -> (r: String)
    ensures
        r@ == "session-"@ + stamp@ + ".jsonl"@,
{
    let mut name = "session-".to_string();
    name.append(stamp);
    name.append(".jsonl");
    name
}

/// A time as it stands in file names: a year, then month, day, hour, minute and second, as in
/// `20260301T120000Z`.
pub open spec fn is_file_stamp(stamp: Seq<char>) -> bool {
    let tail = stamp.len() - 12;
    &&& tail >= 4
    &&& two_digits_at(stamp, tail)
    &&& two_digits_at(stamp, tail + 2)
    &&& stamp[tail + 4] == 'T'
    &&& two_digits_at(stamp, tail + 5)
    &&& two_digits_at(stamp, tail + 7)
    &&& two_digits_at(stamp, tail + 9)
    &&& stamp[tail + 11] == 'Z'
}

/// `chrono::Utc::now` through `format`, for the one format that file names use: the current time in
/// UTC. What is stated is the form; which time it is depends on the clock.
#[verifier::external_body]
fn file_stamp(format: &str) -> (r: String)
    requires
        format@ == "%Y%m%dT%H%M%SZ"@,
    ensures
        is_file_stamp(r@),
{
    chrono::Utc::now().format(format).to_string()
}

/// The name of a legacy log file that is created now.
pub fn fresh_session_log_filename() -> (r: String)
    ensures
        exists|stamp: Seq<char>| #[trigger]
            is_file_stamp(stamp) && r@ == "session-"@ + stamp + ".jsonl"@,
{
    let stamp = file_stamp("%Y%m%dT%H%M%SZ");
    session_log_filename(stamp.as_str())
}

/// What a log says of the session that it belongs to.
#[derive(Debug, PartialEq, Eq)]
pub struct SessionInfo {
    pub cwd: String,
    pub model: Option<String>,
    pub model_provider_id: String,
    pub model_provider_name: String,
}

/// The members that describe a session.
pub open spec fn session_info_members(info: SessionInfo) -> Seq<(Seq<char>, JsonView)> {
    seq![
        ("cwd"@, JsonView::Text(info.cwd@)),
        (
            "model"@,
            match info.model {
                Some(model) => JsonView::Text(model@),
                None => JsonView::Null,
            },
        ),
        ("model_provider_id"@, JsonView::Text(info.model_provider_id@)),
        ("model_provider_name"@, JsonView::Text(info.model_provider_name@)),
    ]
}

fn push_session_info(members: &mut Vec<Member>, info: &SessionInfo)
    ensures
        member_views(final(members)@) == member_views(old(members)@)
            + session_info_members(*info),
{
    members.push(member("cwd", Json::text(info.cwd.as_str())));
    let model = match &info.model {
        Some(model) => Json::text(model.as_str()),
        None => Json::Null,
    };
    members.push(member("model", model));
    members.push(member("model_provider_id", Json::text(info.model_provider_id.as_str())));
    members.push(member("model_provider_name", Json::text(info.model_provider_name.as_str())));
    assert(member_views(members@) =~= member_views(old(members)@)
        + session_info_members(*info));
}

/// The payload of the first record of an event stream.
pub fn session_start_payload(info: &SessionInfo) -> (r: Json)
    ensures
        r@ == JsonView::Object(session_info_members(*info)),
{
    let mut members: Vec<Member> = Vec::new();
    push_session_info(&mut members, info);
    let r = Json::object(members);
    assert(r@->Object_0 =~= session_info_members(*info));
    r
}

/// The first record of a legacy log, stamped with the time `ts`.
pub fn legacy_session_start_at(ts: &str, info: &SessionInfo) -> (r: Json)
    ensures
        r@ == JsonView::Object(
            legacy_head(ts@, "meta"@, "session_start"@) + session_info_members(*info),
        ),
{
    let mut members = legacy_members(ts, "meta", "session_start");
    push_session_info(&mut members, info);
    Json::object(members)
}

/// The first record of a legacy log, stamped with the current time.
pub fn legacy_session_start(info: &SessionInfo) -> (r: Json)
    ensures
        exists|ts: Seq<char>|
            is_utc_stamp(ts) && r@ == JsonView::Object(
                #[trigger] legacy_head(ts, "meta"@, "session_start"@) + session_info_members(*info),
            ),
{
    let ts = now_ts();
    legacy_session_start_at(ts.as_str(), info)
}

/// The names that records use are all different.
proof fn lemma_record_names()
    ensures
        "schema_version"@ != "ts"@,
        "schema_version"@ != "session_id"@,
        "schema_version"@ != "seq"@,
        "schema_version"@ != "session_epoch"@,
        "schema_version"@ != "event_type"@,
        "schema_version"@ != "payload"@,
        "ts"@ != "session_id"@,
        "ts"@ != "seq"@,
        "ts"@ != "session_epoch"@,
        "ts"@ != "event_type"@,
        "ts"@ != "payload"@,
        "session_id"@ != "seq"@,
        "session_id"@ != "session_epoch"@,
        "session_id"@ != "event_type"@,
        "session_id"@ != "payload"@,
        "seq"@ != "session_epoch"@,
        "seq"@ != "event_type"@,
        "seq"@ != "payload"@,
        "session_epoch"@ != "event_type"@,
        "session_epoch"@ != "payload"@,
        "event_type"@ != "payload"@,
{
    reveal_strlit("schema_version");
    reveal_strlit("ts");
    reveal_strlit("session_id");
    reveal_strlit("seq");
    reveal_strlit("session_epoch");
    reveal_strlit("event_type");
    reveal_strlit("payload");
    assert("schema_version"@.len() == 14);
    assert("ts"@.len() == 2);
    assert("session_id"@.len() == 10);
    assert("seq"@.len() == 3);
    assert("session_epoch"@.len() == 13);
    assert("event_type"@.len() == 10);
    assert("payload"@.len() == 7);
    assert("session_id"@[0] != "event_type"@[0]);
}

/// Every record has the required fields, in either schema: the schema version, the time, the
/// session id, the event type and the payload.
pub proof fn law_records_have_required_fields(
    stream: StreamView,
    ts: Seq<char>,
    event_type: Seq<char>,
    payload: JsonView,
    session_id_override: Option<Seq<char>>,
)
    requires
        supported(stream.schema_version),
    ensures
        event_record_view(stream, ts, event_type, payload, session_id_override) matches Some(
            record,
        ) && {
            &&& field(record, "schema_version"@) == Some(
                JsonView::Unsigned(stream.schema_version as u64),
            )
            &&& field(record, "ts"@) == Some(JsonView::Text(ts))
            &&& text_field(record, "session_id"@) is Some
            &&& field(record, "event_type"@) == Some(JsonView::Text(event_type))
            &&& field(record, "payload"@) == Some(payload)
        },
{
    lemma_record_names();
    reveal_with_fuel(lookup, 8);
    let record = event_record_view(stream, ts, event_type, payload, session_id_override)->0;
    let m = record->Object_0;
    lemma_drops(m);
}

/// Unfolds the front of a list of members.
proof fn lemma_drops(m: Seq<(Seq<char>, JsonView)>)
    requires
        m.len() >= 5,
    ensures
        m.drop_first()[0] == m[1],
        m.drop_first().drop_first()[0] == m[2],
        m.drop_first().drop_first().drop_first()[0] == m[3],
        m.drop_first().drop_first().drop_first().drop_first()[0] == m[4],
        m.len() >= 6 ==> m.drop_first().drop_first().drop_first().drop_first().drop_first()[0]
            == m[5],
        m.len() >= 7
            ==> m.drop_first().drop_first().drop_first().drop_first().drop_first().drop_first()[0]
            == m[6],
{
}

/// The first schema knows no ordering metadata; the second adds the sequence number and the
/// epoch of the stream, and changes nothing else but the version.
pub proof fn law_second_schema_is_additive(
    first: StreamView,
    second: StreamView,
    ts: Seq<char>,
    event_type: Seq<char>,
    payload: JsonView,
    session_id_override: Option<Seq<char>>,
    name: Seq<char>,
)
    requires
        first.schema_version == EVENT_SCHEMA_V1,
        second == (StreamView { schema_version: EVENT_SCHEMA_V2, ..first }),
    ensures
        ({
            let old_record = event_record_view(
                first,
                ts,
                event_type,
                payload,
                session_id_override,
            )->0;
            let new_record = event_record_view(
                second,
                ts,
                event_type,
                payload,
                session_id_override,
            )->0;
            &&& field(old_record, "seq"@) is None
            &&& field(old_record, "session_epoch"@) is None
            &&& field(new_record, "seq"@) == Some(JsonView::Unsigned((first.seq + 1) as u64))
            &&& field(new_record, "session_epoch"@) == Some(
                JsonView::Unsigned(first.session_epoch),
            )
            &&& name != "schema_version"@ && field(old_record, name) is Some ==> field(
                new_record,
                name,
            ) == field(old_record, name)
        }),
{
    lemma_record_names();
    reveal_with_fuel(lookup, 8);
    let old_record = event_record_view(first, ts, event_type, payload, session_id_override)->0;
    let new_record = event_record_view(second, ts, event_type, payload, session_id_override)->0;
    lemma_drops(old_record->Object_0);
    lemma_drops(new_record->Object_0);
}

/// The stream after a run of events.
pub open spec fn stream_after_all(
    stream: StreamView,
    events: Seq<(Seq<char>, JsonView)>,
) -> StreamView
    decreases events.len(),
{
    if events.len() == 0 {
        stream
    } else {
        let last = events.last();
        stream_after(stream_after_all(stream, events.drop_last()), last.0, last.1)
    }
}

/// The records of a stream are numbered in order, without gaps, and the epoch and the schema
/// stay what they were.
pub proof fn law_records_are_numbered(stream: StreamView, events: Seq<(Seq<char>, JsonView)>)
    requires
        stream.seq + events.len() <= u64::MAX,
    ensures
        stream_after_all(stream, events).seq == stream.seq + events.len(),
        stream_after_all(stream, events).session_epoch == stream.session_epoch,
        stream_after_all(stream, events).schema_version == stream.schema_version,
    decreases events.len(),
{
    if events.len() > 0 {
        law_records_are_numbered(stream, events.drop_last());
    }
}

/// Whether an event tells a stream the id of its session.
pub open spec fn names_session(event_type: Seq<char>, payload: JsonView) -> bool {
    event_type == "session_configured"@ && text_field(payload, "session_id"@) is Some
}

/// Once a session was configured, its id marks every later record that is not given another one,
/// up to the next event that names a session.
pub proof fn law_session_id_is_remembered(
    stream: StreamView,
    configured: JsonView,
    session_id: Seq<char>,
    later: Seq<(Seq<char>, JsonView)>,
    event_type: Seq<char>,
    payload: JsonView,
)
    requires
        text_field(configured, "session_id"@) == Some(session_id),
        forall|i: int|
            0 <= i < later.len() ==> !names_session((#[trigger] later[i]).0, later[i].1),
        !names_session(event_type, payload),
    ensures
        record_session_id(
            stream_after_all(
                stream_after(stream, "session_configured"@, configured),
                later,
            ),
            event_type,
            payload,
            None,
        ) == session_id,
    decreases later.len(),
{
    if later.len() > 0 {
        let shorter = later.drop_last();
        assert forall|i: int| 0 <= i < shorter.len() implies !names_session(
            (#[trigger] shorter[i]).0,
            shorter[i].1,
        ) by {
            assert(shorter[i] == later[i]);
        }
        assert(later.last() == later[later.len() - 1]);
        law_session_id_is_remembered(
            stream,
            configured,
            session_id,
            shorter,
            event_type,
            payload,
        );
        law_session_id_is_remembered(
            stream,
            configured,
            session_id,
            shorter,
            later.last().0,
            later.last().1,
        );
    }
}

/// The payload of a protocol event's record has no type of its own, and every other field of the
/// message is kept.
pub proof fn law_protocol_payload_keeps_fields(msg: JsonView, name: Seq<char>)
    ensures
        msg is Object ==> protocol_payload(msg) is Object,
        field(protocol_payload(msg), "type"@) is None,
        name != "type"@ ==> field(protocol_payload(msg), name) == field(msg, name),
{
    crate::json::lemma_without_field(msg, "type"@, name);
}

/// A log in the form of an event stream keeps every event that it is given: none is dropped for
/// want of a stream or of a supported schema.
pub proof fn law_open_streams_drop_nothing(
    logger: LoggerView,
    ts: Seq<char>,
    event_type: Seq<char>,
    payload: JsonView,
    session_id_override: Option<Seq<char>>,
)
    requires
        logger.wf(),
        logger.mode == Some(LogMode::EventStream),
    ensures
        logger.writer,
        logger_record(logger, ts, event_type, payload, session_id_override) is Some,
        logger_after(logger, event_type, payload).wf(),
{
}

/// The first record of a stream describes the session. It names no session yet, and under the
/// second schema it is number one.
pub proof fn law_stream_starts_with_its_session(
    ts: Seq<char>,
    schema_version: u32,
    info: SessionInfo,
)
    requires
        supported(schema_version),
    ensures
        start_record(
            LoggerView { writer: false, mode: None, stream: None },
            ts,
            schema_version,
            info,
        ) matches Some(record) && {
            &&& field(record, "schema_version"@) == Some(JsonView::Unsigned(schema_version as u64))
            &&& field(record, "event_type"@) == Some(JsonView::Text("session_start"@))
            &&& field(record, "payload"@) == Some(JsonView::Object(session_info_members(info)))
            &&& field(record, "session_id"@) == Some(JsonView::Text("unknown"@))
            &&& schema_version == EVENT_SCHEMA_V2 ==> field(record, "seq"@) == Some(
                JsonView::Unsigned(1),
            )
        },
{
    let stream = new_stream(schema_version);
    let payload = JsonView::Object(session_info_members(info));
    law_records_have_required_fields(stream, ts, "session_start"@, payload, None);
    reveal_strlit("session_start");
    reveal_strlit("session_configured");
    assert("session_start"@.len() != "session_configured"@.len());
    lemma_record_names();
    reveal_with_fuel(lookup, 8);
    let record = event_record_view(stream, ts, "session_start"@, payload, None)->0;
    lemma_drops(record->Object_0);
}

/// Whether a record of a stream tells this: the schema of the stream, the time, the session, the
/// event and its payload; and under the second schema, and only there, the next number and the epoch
/// of the stream.
pub open spec fn tells(
    record: JsonView,
    stream: StreamView,
    ts: Seq<char>,
    session_id: Seq<char>,
    event_type: Seq<char>,
    payload: JsonView,
) -> bool {
    &&& field(record, "schema_version"@) == Some(JsonView::Unsigned(stream.schema_version as u64))
    &&& field(record, "ts"@) == Some(JsonView::Text(ts))
    &&& field(record, "session_id"@) == Some(JsonView::Text(session_id))
    &&& field(record, "event_type"@) == Some(JsonView::Text(event_type))
    &&& field(record, "payload"@) == Some(payload)
    &&& stream.schema_version == 1 ==> field(record, "seq"@) is None && field(
        record,
        "session_epoch"@,
    ) is None
    &&& stream.schema_version == 2 ==> field(record, "seq"@) == Some(
        JsonView::Unsigned((stream.seq + 1) as u64),
    ) && field(record, "session_epoch"@) == Some(JsonView::Unsigned(stream.session_epoch))
}

proof fn lemma_record_tells(
    stream: StreamView,
    ts: Seq<char>,
    session_id: Seq<char>,
    event_type: Seq<char>,
    payload: JsonView,
)
    requires
        stream.schema_version == 1 || stream.schema_version == 2,
    ensures
        record_view(
            stream_after(stream, event_type, payload),
            ts,
            session_id,
            event_type,
            payload,
        ) matches Some(record) && tells(record, stream, ts, session_id, event_type, payload),
{
    lemma_record_names();
    reveal_with_fuel(lookup, 8);
    let record = record_view(
        stream_after(stream, event_type, payload),
        ts,
        session_id,
        event_type,
        payload,
    )->0;
    lemma_drops(record->Object_0);
}

/// Every event leaves a record in a stream of schema 1 or 2 that tells the time, the event and its
/// payload. Its session is the given one where one is given, else the one that the event itself
/// names if it is the configuration of a session, else the one known from before, else `unknown`.
pub proof fn law_records_tell_their_event_and_session(
    logger: LoggerView,
    stream: StreamView,
    ts: Seq<char>,
    event_type: Seq<char>,
    payload: JsonView,
    given: Option<Seq<char>>,
)
    requires
        logger.stream == Some(stream),
        stream.schema_version == 1 || stream.schema_version == 2,
    ensures
        logger_record(logger, ts, event_type, payload, given) matches Some(record) && {
            let named = event_type == "session_configured"@ && field(
                payload,
                "session_id"@,
            ) is Some && field(payload, "session_id"@)->Some_0 is Text;
            &&& given matches Some(session) ==> tells(
                record,
                stream,
                ts,
                session,
                event_type,
                payload,
            )
            &&& given is None && named ==> tells(
                record,
                stream,
                ts,
                field(payload, "session_id"@)->Some_0->Text_0,
                event_type,
                payload,
            )
            &&& given is None && !named ==> (stream.session_id matches Some(session) ==> tells(
                record,
                stream,
                ts,
                session,
                event_type,
                payload,
            ))
            &&& given is None && !named && stream.session_id is None ==> tells(
                record,
                stream,
                ts,
                "unknown"@,
                event_type,
                payload,
            )
        },
{
    lemma_record_tells(
        stream,
        ts,
        record_session_id(stream, event_type, payload, given),
        event_type,
        payload,
    );
}

/// An event moves the stream of a logger on by one number. It changes the known session exactly if it
/// is the configuration of a session that names one, and nothing else.
pub proof fn law_events_move_the_stream_on(
    logger: LoggerView,
    stream: StreamView,
    event_type: Seq<char>,
    payload: JsonView,
)
    requires
        logger.stream == Some(stream),
        stream.seq < u64::MAX,
    ensures
        logger_after(logger, event_type, payload).writer == logger.writer,
        logger_after(logger, event_type, payload).mode == logger.mode,
        logger_after(logger, event_type, payload).stream matches Some(after) && {
            &&& after.seq == stream.seq + 1
            &&& after.session_epoch == stream.session_epoch
            &&& after.schema_version == stream.schema_version
            &&& event_type == "session_configured"@ ==> (field(payload, "session_id"@) matches Some(
                JsonView::Text(session),
            ) ==> after.session_id == Some(session))
            &&& event_type != "session_configured"@ ==> after.session_id == stream.session_id
            &&& !(field(payload, "session_id"@) matches Some(JsonView::Text(_)))
                ==> after.session_id == stream.session_id
        },
{
}

proof fn lemma_not_session_configured()
    ensures
        "op_submitted"@ != "session_configured"@,
        "session_end"@ != "session_configured"@,
{
    reveal_strlit("op_submitted");
    reveal_strlit("session_end");
    reveal_strlit("session_configured");
    assert("op_submitted"@.len() == 12);
    assert("session_end"@.len() == 11);
    assert("session_configured"@.len() == 18);
}

/// A submitted command is recorded whole: where a log takes in a command with an encoded form, the
/// record exists and its payload is that form. In an event stream it is an `op_submitted` event of the
/// thread that the command went to, or without one of the known session; in the legacy form it is an
/// `op` from the interface. A command without an encoded form leaves nothing.
pub proof fn law_submitted_commands_are_recorded_whole(
    logger: LoggerView,
    ts: Seq<char>,
    payload: JsonView,
    thread_id: Option<ThreadId>,
)
    requires
        logger.wf(),
    ensures
        logger.mode == Some(LogMode::EventStream) ==> (outbound_record(
            logger,
            ts,
            Some(payload),
            thread_id,
        ) matches Some(record) && {
            let stream = logger.stream->Some_0;
            &&& field(record, "event_type"@) == Some(JsonView::Text("op_submitted"@))
            &&& field(record, "payload"@) == Some(payload)
            &&& thread_id matches Some(thread) ==> tells(
                record,
                stream,
                ts,
                uuid_text(thread.uuid),
                "op_submitted"@,
                payload,
            )
            &&& thread_id is None ==> tells(
                record,
                stream,
                ts,
                if stream.session_id is Some {
                    stream.session_id->Some_0
                } else {
                    "unknown"@
                },
                "op_submitted"@,
                payload,
            )
        }),
        logger.mode == Some(LogMode::EventStream) ==> outbound_after(logger, Some(payload))
            == logger_after(logger, "op_submitted"@, payload),
        logger.mode == Some(LogMode::Legacy) ==> (outbound_record(
            logger,
            ts,
            Some(payload),
            thread_id,
        ) matches Some(record) && {
            &&& field(record, "ts"@) == Some(JsonView::Text(ts))
            &&& field(record, "dir"@) == Some(JsonView::Text("from_tui"@))
            &&& field(record, "kind"@) == Some(JsonView::Text("op"@))
            &&& field(record, "payload"@) == Some(payload)
        }),
        logger.mode == Some(LogMode::Legacy) ==> outbound_after(logger, Some(payload)) == logger,
        logger.mode is None ==> outbound_record(logger, ts, Some(payload), thread_id) is None
            && outbound_after(logger, Some(payload)) == logger,
        outbound_record(logger, ts, None, thread_id) is None,
        outbound_after(logger, None) == logger,
{
    lemma_not_session_configured();
    if logger.mode == Some(LogMode::EventStream) {
        let stream = logger.stream->Some_0;
        lemma_record_tells(
            stream,
            ts,
            record_session_id(stream, "op_submitted"@, payload, thread_text(thread_id)),
            "op_submitted"@,
            payload,
        );
    }
    if logger.mode == Some(LogMode::Legacy) {
        lemma_legacy_fields(ts, "from_tui"@, "op"@, seq![("payload"@, payload)]);
        assert(legacy_record_view(ts, "from_tui"@, "op"@, payload)->Object_0 =~= legacy_head(
            ts,
            "from_tui"@,
            "op"@,
        ) + seq![("payload"@, payload)]);
    }
}

proof fn lemma_legacy_names()
    ensures
        "ts"@.len() == 2,
        "dir"@.len() == 3,
        "kind"@.len() == 4,
        "payload"@.len() == 7,
        "lines"@.len() == 5,
        "query"@.len() == 5,
        "matches"@.len() == 7,
        "variant"@.len() == 7,
        "cwd"@.len() == 3,
        "cwd"@[0] != "dir"@[0],
        "model"@.len() == 5,
        "model_provider_id"@.len() == 17,
        "model_provider_name"@.len() == 19,
{
    reveal_strlit("ts");
    reveal_strlit("dir");
    reveal_strlit("kind");
    reveal_strlit("payload");
    reveal_strlit("lines");
    reveal_strlit("query");
    reveal_strlit("matches");
    reveal_strlit("variant");
    reveal_strlit("cwd");
    reveal_strlit("model");
    reveal_strlit("model_provider_id");
    reveal_strlit("model_provider_name");
}

/// What stands in a legacy record: its time, direction and kind, and what follows under names that
/// are not among these.
proof fn lemma_legacy_fields(
    ts: Seq<char>,
    dir: Seq<char>,
    kind: Seq<char>,
    rest: Seq<(Seq<char>, JsonView)>,
)
    ensures
        ({
            let record = JsonView::Object(legacy_head(ts, dir, kind) + rest);
            &&& field(record, "ts"@) == Some(JsonView::Text(ts))
            &&& field(record, "dir"@) == Some(JsonView::Text(dir))
            &&& field(record, "kind"@) == Some(JsonView::Text(kind))
            &&& rest.len() >= 1 && rest[0].0 != "ts"@ && rest[0].0 != "dir"@ && rest[0].0 != "kind"@
                ==> field(record, rest[0].0) == Some(rest[0].1)
            &&& rest.len() >= 2 && rest[1].0 != "ts"@ && rest[1].0 != "dir"@ && rest[1].0 != "kind"@
                && rest[1].0 != rest[0].0 ==> field(record, rest[1].0) == Some(rest[1].1)
        }),
        rest.len() >= 1 && rest[0].0.len() > 4 ==> rest[0].0 != "ts"@ && rest[0].0 != "dir"@
            && rest[0].0 != "kind"@,
        rest.len() >= 2 && rest[1].0.len() > 4 ==> rest[1].0 != "ts"@ && rest[1].0 != "dir"@
            && rest[1].0 != "kind"@,
        "payload"@.len() == 7,
        "lines"@.len() == 5,
        "query"@.len() == 5,
        "matches"@.len() == 7,
        "variant"@.len() == 7,
{
    lemma_legacy_names();
    let members = legacy_head(ts, dir, kind) + rest;
    law_first_member_is_found(members, "ts"@, 0);
    law_first_member_is_found(members, "dir"@, 1);
    law_first_member_is_found(members, "kind"@, 2);
    if rest.len() >= 1 {
        assert(members[3] == rest[0]);
        if rest[0].0 != "ts"@ && rest[0].0 != "dir"@ && rest[0].0 != "kind"@ {
            law_first_member_is_found(members, rest[0].0, 3);
        }
    }
    if rest.len() >= 2 {
        assert(members[4] == rest[1]);
        if rest[1].0 != "ts"@ && rest[1].0 != "dir"@ && rest[1].0 != "kind"@ && rest[1].0
            != rest[0].0 {
            law_first_member_is_found(members, rest[1].0, 4);
        }
    }
}

/// The end of a session is the last thing that a log tells: in an event stream as a `session_end`
/// event without content, of the known session; in the legacy form as a note about the session.
pub proof fn law_end_of_session_is_recorded(logger: LoggerView, ts: Seq<char>)
    requires
        logger.wf(),
    ensures
        logger.mode == Some(LogMode::EventStream) ==> (end_record(logger, ts) matches Some(record)
            && tells(
            record,
            logger.stream->Some_0,
            ts,
            if logger.stream->Some_0.session_id is Some {
                logger.stream->Some_0.session_id->Some_0
            } else {
                "unknown"@
            },
            "session_end"@,
            JsonView::Object(Seq::empty()),
        )),
        logger.mode == Some(LogMode::EventStream) ==> end_after(logger) == logger_after(
            logger,
            "session_end"@,
            JsonView::Object(Seq::empty()),
        ),
        logger.mode == Some(LogMode::Legacy) ==> (end_record(logger, ts) matches Some(record) && {
            &&& field(record, "ts"@) == Some(JsonView::Text(ts))
            &&& field(record, "dir"@) == Some(JsonView::Text("meta"@))
            &&& field(record, "kind"@) == Some(JsonView::Text("session_end"@))
        }),
        logger.mode != Some(LogMode::EventStream) ==> end_after(logger) == logger,
        logger.mode is None ==> end_record(logger, ts) is None,
{
    lemma_not_session_configured();
    if logger.mode == Some(LogMode::EventStream) {
        let stream = logger.stream->Some_0;
        lemma_record_tells(
            stream,
            ts,
            record_session_id(stream, "session_end"@, empty_object(), None),
            "session_end"@,
            empty_object(),
        );
    }
    if logger.mode == Some(LogMode::Legacy) {
        lemma_legacy_fields(ts, "meta"@, "session_end"@, Seq::empty());
        assert(legacy_head(ts, "meta"@, "session_end"@) =~= legacy_head(
            ts,
            "meta"@,
            "session_end"@,
        ) + Seq::<(Seq<char>, JsonView)>::empty());
    }
}

/// An event that only event streams keep is recorded there as it is, of the known session, and
/// nowhere else.
pub proof fn law_stream_events_are_recorded_whole(
    logger: LoggerView,
    ts: Seq<char>,
    event_type: Seq<char>,
    payload: JsonView,
)
    requires
        logger.wf(),
    ensures
        logger.mode == Some(LogMode::EventStream) ==> stream_event_record(
            logger,
            ts,
            event_type,
            payload,
        ) == logger_record(logger, ts, event_type, payload, None),
        logger.mode == Some(LogMode::EventStream) && event_type != "session_configured"@ ==> (
        stream_event_record(
            logger,
            ts,
            event_type,
            payload,
        ) matches Some(record) && tells(
            record,
            logger.stream->Some_0,
            ts,
            if logger.stream->Some_0.session_id is Some {
                logger.stream->Some_0.session_id->Some_0
            } else {
                "unknown"@
            },
            event_type,
            payload,
        )),
        logger.mode == Some(LogMode::EventStream) ==> stream_event_after(
            logger,
            event_type,
            payload,
        ) == logger_after(logger, event_type, payload),
        logger.mode != Some(LogMode::EventStream) ==> stream_event_record(
            logger,
            ts,
            event_type,
            payload,
        ) is None && stream_event_after(logger, event_type, payload) == logger,
{
    if logger.mode == Some(LogMode::EventStream) {
        let stream = logger.stream->Some_0;
        lemma_record_tells(
            stream,
            ts,
            record_session_id(stream, event_type, payload, None),
            event_type,
            payload,
        );
    }
}

/// The contract calls the start and the end of a task those of a turn, and every other event by its
/// own name.
pub proof fn law_contract_speaks_of_turns(event_type: Seq<char>)
    ensures
        contract_event_type("task_started"@) == "turn_started"@,
        contract_event_type("task_complete"@) == "turn_complete"@,
        event_type != "task_started"@ && event_type != "task_complete"@ ==> contract_event_type(
            event_type,
        ) == event_type,
{
    reveal_strlit("task_started");
    reveal_strlit("task_complete");
    assert("task_started"@.len() != "task_complete"@.len());
}

/// An event of the protocol is recorded in an event stream under the name that its message gives, in
/// the contract's terms, with the rest of the message as its payload; one of a named thread belongs
/// to that thread. Without a message nothing is recorded, and other events of the application are
/// not.
pub proof fn law_protocol_events_are_recorded_whole(
    logger: LoggerView,
    ts: Seq<char>,
    event: ProtocolEvent,
    thread_id: ThreadId,
    msg: Json,
    name: Seq<char>,
    debug: Seq<char>,
)
    requires
        logger.wf(),
        logger.mode == Some(LogMode::EventStream),
        event.msg == Some(msg),
        field(msg@, "type"@) == Some(JsonView::Text(name)),
        name != "task_started"@,
        name != "task_complete"@,
    ensures
        inbound_record(
            logger,
            ts,
            AppEvent::ThreadEvent { thread_id, event },
            debug,
        ) matches Some(record) && tells(
            record,
            logger.stream->Some_0,
            ts,
            uuid_text(thread_id.uuid),
            name,
            without_field(msg@, "type"@),
        ),
        inbound_after(logger, AppEvent::ThreadEvent { thread_id, event }) == logger_after(
            logger,
            name,
            without_field(msg@, "type"@),
        ),
        inbound_record(logger, ts, AppEvent::CodexEvent(event), debug) matches Some(record)
            && field(record, "event_type"@) == Some(JsonView::Text(name)) && field(
            record,
            "payload"@,
        ) == Some(without_field(msg@, "type"@)),
        inbound_record(logger, ts, AppEvent::CodexEvent(event), debug) == logger_record(
            logger,
            ts,
            name,
            without_field(msg@, "type"@),
            None,
        ),
        inbound_after(logger, AppEvent::CodexEvent(event)) == logger_after(
            logger,
            name,
            without_field(msg@, "type"@),
        ),
{
    law_contract_speaks_of_turns(name);
    let stream = logger.stream->Some_0;
    let payload = without_field(msg@, "type"@);
    lemma_record_tells(stream, ts, uuid_text(thread_id.uuid), name, payload);
    lemma_record_tells(stream, ts, record_session_id(stream, name, payload, None), name, payload);
}

/// What an event stream makes of the start and the end of a task, and of a message without a type;
/// and that it leaves out what has no message and what is no event of the protocol.
pub proof fn law_stream_names_protocol_events(
    logger: LoggerView,
    ts: Seq<char>,
    event: AppEvent,
    protocol: ProtocolEvent,
    thread_id: ThreadId,
    debug: Seq<char>,
)
    requires
        logger.wf(),
        logger.mode == Some(LogMode::EventStream),
    ensures
        protocol.msg matches Some(msg) ==> {
            let payload = without_field(msg@, "type"@);
            let thread = Some(uuid_text(thread_id.uuid));
            let own = AppEvent::CodexEvent(protocol);
            let other = AppEvent::ThreadEvent { thread_id, event: protocol };
            &&& field(msg@, "type"@) == Some(JsonView::Text("task_started"@)) ==> {
                &&& inbound_record(logger, ts, own, debug) == logger_record(
                    logger,
                    ts,
                    "turn_started"@,
                    payload,
                    None,
                )
                &&& inbound_record(logger, ts, other, debug) == logger_record(
                    logger,
                    ts,
                    "turn_started"@,
                    payload,
                    thread,
                )
                &&& inbound_after(logger, own) == logger_after(logger, "turn_started"@, payload)
                &&& inbound_after(logger, other) == logger_after(logger, "turn_started"@, payload)
            }
            &&& field(msg@, "type"@) == Some(JsonView::Text("task_complete"@)) ==> {
                &&& inbound_record(logger, ts, own, debug) == logger_record(
                    logger,
                    ts,
                    "turn_complete"@,
                    payload,
                    None,
                )
                &&& inbound_record(logger, ts, other, debug) == logger_record(
                    logger,
                    ts,
                    "turn_complete"@,
                    payload,
                    thread,
                )
                &&& inbound_after(logger, own) == logger_after(logger, "turn_complete"@, payload)
                &&& inbound_after(logger, other) == logger_after(logger, "turn_complete"@, payload)
            }
            &&& !(field(msg@, "type"@) matches Some(JsonView::Text(_))) ==> {
                &&& inbound_record(logger, ts, own, debug) == logger_record(
                    logger,
                    ts,
                    "unknown"@,
                    payload,
                    None,
                )
                &&& inbound_record(logger, ts, other, debug) == logger_record(
                    logger,
                    ts,
                    "unknown"@,
                    payload,
                    thread,
                )
                &&& inbound_after(logger, own) == logger_after(logger, "unknown"@, payload)
                &&& inbound_after(logger, other) == logger_after(logger, "unknown"@, payload)
            }
        },
        protocol.msg is None ==> {
            &&& inbound_record(logger, ts, AppEvent::CodexEvent(protocol), debug) is None
            &&& inbound_after(logger, AppEvent::CodexEvent(protocol)) == logger
            &&& inbound_record(
                logger,
                ts,
                AppEvent::ThreadEvent { thread_id, event: protocol },
                debug,
            ) is None
            &&& inbound_after(logger, AppEvent::ThreadEvent { thread_id, event: protocol }) == logger
        },
        !(event is CodexEvent) && !(event is ThreadEvent) ==> {
            &&& inbound_record(logger, ts, event, debug) is None
            &&& inbound_after(logger, event) == logger
        },
{
    law_contract_speaks_of_turns("unknown"@);
    reveal_strlit("unknown");
    reveal_strlit("task_started");
    reveal_strlit("task_complete");
    assert("unknown"@.len() == 7 && "task_started"@.len() == 12 && "task_complete"@.len() == 13);
}

/// What the legacy form tells of each event of the application: its time, that it went to the
/// interface, its kind, and what it holds. An event without a form of its own is told by the name that
/// its rendering starts with. A log without a destination tells nothing.
pub proof fn law_legacy_log_tells_each_event(
    logger: LoggerView,
    ts: Seq<char>,
    event: AppEvent,
    debug: Seq<char>,
)
    requires
        logger.wf(),
    ensures
        inbound_after(logger, event) == logger || logger.mode == Some(LogMode::EventStream),
        logger.mode is None ==> inbound_record(logger, ts, event, debug) is None,
        logger.mode == Some(LogMode::Legacy) ==> (inbound_record(
            logger,
            ts,
            event,
            debug,
        ) matches Some(record) && {
            let kind = field(record, "kind"@);
            &&& field(record, "ts"@) == Some(JsonView::Text(ts))
            &&& field(record, "dir"@) == Some(JsonView::Text("to_tui"@))
            &&& match event {
                AppEvent::CodexEvent(protocol) => {
                    &&& kind == Some(JsonView::Text("codex_event"@))
                    &&& field(record, "payload"@) == Some(protocol.encoded@)
                },
                AppEvent::NewSession => kind == Some(JsonView::Text("new_session"@)),
                AppEvent::ClearUi => kind == Some(JsonView::Text("clear_ui"@)),
                AppEvent::InsertHistoryCell { transcript_lines } => {
                    &&& kind == Some(JsonView::Text("insert_history_cell"@))
                    &&& field(record, "lines"@) == Some(
                        JsonView::Unsigned(transcript_lines as u64),
                    )
                },
                AppEvent::StartFileSearch(query) => {
                    &&& kind == Some(JsonView::Text("file_search_start"@))
                    &&& field(record, "query"@) == Some(JsonView::Text(query@))
                },
                AppEvent::FileSearchResult { query, matches } => {
                    &&& kind == Some(JsonView::Text("file_search_result"@))
                    &&& field(record, "query"@) == Some(JsonView::Text(query@))
                    &&& field(record, "matches"@) == Some(
                        JsonView::Unsigned(matches@.len() as u64),
                    )
                },
                _ => {
                    &&& kind == Some(JsonView::Text("app_event"@))
                    &&& field(record, "variant"@) == Some(
                        JsonView::Text(head_before(debug, '(')),
                    )
                },
            }
        }),
{
    if logger.mode == Some(LogMode::Legacy) {
        let none = Seq::<(Seq<char>, JsonView)>::empty();
        let dir = "to_tui"@;
        let (kind, rest) = match event {
            AppEvent::CodexEvent(protocol) => (
                "codex_event"@,
                seq![("payload"@, protocol.encoded@)],
            ),
            AppEvent::NewSession => ("new_session"@, none),
            AppEvent::ClearUi => ("clear_ui"@, none),
            AppEvent::InsertHistoryCell { transcript_lines } => (
                "insert_history_cell"@,
                seq![("lines"@, JsonView::Unsigned(transcript_lines as u64))],
            ),
            AppEvent::StartFileSearch(query) => (
                "file_search_start"@,
                seq![("query"@, JsonView::Text(query@))],
            ),
            AppEvent::FileSearchResult { query, matches } => (
                "file_search_result"@,
                seq![
                    ("query"@, JsonView::Text(query@)),
                    ("matches"@, JsonView::Unsigned(matches@.len() as u64)),
                ],
            ),
            _ => ("app_event"@, seq![("variant"@, JsonView::Text(head_before(debug, '(')))]),
        };
        lemma_legacy_fields(ts, dir, kind, rest);
        assert(legacy_inbound_view(ts, event, debug)->Object_0 =~= legacy_head(ts, dir, kind)
            + rest);
    }
}

/// The first destination of a log decides its form and its schema; one that is opened later changes
/// neither. A new stream has no record yet, is in its first epoch and knows no session.
pub proof fn law_first_destination_decides(logger: LoggerView, schema_version: u32)
    ensures
        logger.opened_legacy().writer,
        logger.opened_stream(schema_version).writer,
        logger.mode is None ==> {
            &&& logger.opened_legacy().mode == Some(LogMode::Legacy)
            &&& logger.opened_stream(schema_version).mode == Some(LogMode::EventStream)
        },
        logger.mode is Some ==> {
            &&& logger.opened_legacy().mode == logger.mode
            &&& logger.opened_stream(schema_version).mode == logger.mode
        },
        logger.opened_legacy().stream == logger.stream,
        logger.stream is Some ==> logger.opened_stream(schema_version).stream == logger.stream,
        logger.stream is None ==> (logger.opened_stream(schema_version).stream matches Some(stream)
            && {
            &&& stream.schema_version == schema_version
            &&& stream.seq == 0
            &&& stream.session_epoch == 1
            &&& stream.session_id is None
        }),
{
}

/// The schemas 1 and 2 are supported, and no other; the failure names the one that was asked for. The
/// second is in use where none is asked for.
pub proof fn law_two_schemas_are_supported(schema_version: u32)
    ensures
        supported(schema_version) <==> schema_version == 1 || schema_version == 2,
        EVENT_SCHEMA_CURRENT == 2,
        unsupported_schema(schema_version).kind == FailureKind::InvalidInput,
        unsupported_schema(schema_version).message == "unsupported event schema version `"@
            + decimal(schema_version as nat) + "`; supported versions are 1 and 2"@,
{
}

/// A legacy log is asked for by five words, and by nothing else.
pub proof fn law_legacy_log_is_asked_for(value: Option<Seq<char>>)
    ensures
        asks_for_record(Some("1"@)),
        asks_for_record(Some("true"@)),
        asks_for_record(Some("TRUE"@)),
        asks_for_record(Some("yes"@)),
        asks_for_record(Some("YES"@)),
        asks_for_record(value) ==> value is Some && (value->Some_0 == "1"@ || value->Some_0
            == "true"@ || value->Some_0 == "TRUE"@ || value->Some_0 == "yes"@ || value->Some_0
            == "YES"@),
{
}

/// The first record of a log describes the session: its directory, its model, null where there is
/// none, and the id and the name of its provider. In the legacy form these follow the time and the
/// kind of the record.
pub proof fn law_start_describes_the_session(ts: Seq<char>, info: SessionInfo)
    ensures
        forall|record: JsonView|
            record == JsonView::Object(session_info_members(info)) || record == JsonView::Object(
                legacy_head(ts, "meta"@, "session_start"@) + session_info_members(info),
            ) ==> {
                &&& #[trigger] field(record, "cwd"@) == Some(JsonView::Text(info.cwd@))
                &&& info.model matches Some(model) ==> field(record, "model"@) == Some(
                    JsonView::Text(model@),
                )
                &&& info.model is None ==> field(record, "model"@) == Some(JsonView::Null)
                &&& field(record, "model_provider_id"@) == Some(
                    JsonView::Text(info.model_provider_id@),
                )
                &&& field(record, "model_provider_name"@) == Some(
                    JsonView::Text(info.model_provider_name@),
                )
            },
        ({
            let record = JsonView::Object(
                legacy_head(ts, "meta"@, "session_start"@) + session_info_members(info),
            );
            &&& field(record, "ts"@) == Some(JsonView::Text(ts))
            &&& field(record, "dir"@) == Some(JsonView::Text("meta"@))
            &&& field(record, "kind"@) == Some(JsonView::Text("session_start"@))
        }),
{
    lemma_legacy_names();
    let members = session_info_members(info);
    law_first_member_is_found(members, "cwd"@, 0);
    law_first_member_is_found(members, "model"@, 1);
    law_first_member_is_found(members, "model_provider_id"@, 2);
    law_first_member_is_found(members, "model_provider_name"@, 3);
    lemma_legacy_fields(ts, "meta"@, "session_start"@, members);
    let all = legacy_head(ts, "meta"@, "session_start"@) + members;
    assert(all[3] == members[0] && all[4] == members[1] && all[5] == members[2] && all[6]
        == members[3]);
    law_first_member_is_found(all, "cwd"@, 3);
    law_first_member_is_found(all, "model"@, 4);
    law_first_member_is_found(all, "model_provider_id"@, 5);
    law_first_member_is_found(all, "model_provider_name"@, 6);
}

/// Opening a stream records the start of the session first, whatever the log was before: in the stream
/// that is then in use, which moves on by that one record.
pub proof fn law_opening_records_the_start(
    logger: LoggerView,
    ts: Seq<char>,
    schema_version: u32,
    info: SessionInfo,
)
    requires
        logger.wf(),
        schema_version == 1 || schema_version == 2,
    ensures
        start_record(logger, ts, schema_version, info) matches Some(record) && {
            let stream = logger.opened_stream(schema_version).stream->Some_0;
            tells(
                record,
                stream,
                ts,
                if stream.session_id is Some {
                    stream.session_id->Some_0
                } else {
                    "unknown"@
                },
                "session_start"@,
                JsonView::Object(session_info_members(info)),
            )
        },
        started_logger(logger, schema_version, info) == logger_after(
            logger.opened_stream(schema_version),
            "session_start"@,
            JsonView::Object(session_info_members(info)),
        ),
{
    reveal_strlit("session_start");
    reveal_strlit("session_configured");
    assert("session_start"@.len() != "session_configured"@.len());
    let stream = logger.opened_stream(schema_version).stream->Some_0;
    let payload = JsonView::Object(session_info_members(info));
    lemma_record_tells(
        stream,
        ts,
        record_session_id(stream, "session_start"@, payload, None),
        "session_start"@,
        payload,
    );
}

/// How an entry about a side conversation stands in a stream: under a name of its own for each kind,
/// with the id of the request, the threads by their UUIDs, null where one is missing, and the answer
/// or the error, word for word.
pub proof fn law_btw_entries_are_told_whole(entry: BtwLogView)
    ensures
        entry matches BtwLogView::Started { request_id, parent_thread_id, thread_id } ==> {
            &&& btw_event_type(entry) == "btw_started"@
            &&& field(btw_payload(entry), "request_id"@) == Some(JsonView::Text(request_id))
            &&& field(btw_payload(entry), "parent_thread_id"@) == Some(
                JsonView::Text(uuid_text(parent_thread_id.uuid)),
            )
            &&& field(btw_payload(entry), "thread_id"@) == Some(
                JsonView::Text(uuid_text(thread_id.uuid)),
            )
        },
        entry matches BtwLogView::Completed { request_id, parent_thread_id, thread_id, answer } ==> {
            &&& btw_event_type(entry) == "btw_completed"@
            &&& field(btw_payload(entry), "request_id"@) == Some(JsonView::Text(request_id))
            &&& field(btw_payload(entry), "parent_thread_id"@) == Some(
                JsonView::Text(uuid_text(parent_thread_id.uuid)),
            )
            &&& field(btw_payload(entry), "thread_id"@) == Some(
                JsonView::Text(uuid_text(thread_id.uuid)),
            )
            &&& field(btw_payload(entry), "answer"@) == Some(JsonView::Text(answer))
        },
        entry matches BtwLogView::Failed { request_id, parent_thread_id, thread_id, error } ==> {
            &&& btw_event_type(entry) == "btw_failed"@
            &&& field(btw_payload(entry), "request_id"@) == Some(JsonView::Text(request_id))
            &&& field(btw_payload(entry), "parent_thread_id"@) == Some(
                match parent_thread_id {
                    Some(parent) => JsonView::Text(uuid_text(parent.uuid)),
                    None => JsonView::Null,
                },
            )
            &&& field(btw_payload(entry), "thread_id"@) == Some(
                match thread_id {
                    Some(thread) => JsonView::Text(uuid_text(thread.uuid)),
                    None => JsonView::Null,
                },
            )
            &&& field(btw_payload(entry), "error"@) == Some(JsonView::Text(error))
        },
{
    reveal_strlit("request_id");
    reveal_strlit("parent_thread_id");
    reveal_strlit("thread_id");
    reveal_strlit("answer");
    reveal_strlit("error");
    assert("request_id"@.len() == 10 && "parent_thread_id"@.len() == 16 && "thread_id"@.len() == 9
        && "answer"@.len() == 6 && "error"@.len() == 5);
    let members = btw_payload(entry)->Object_0;
    law_first_member_is_found(members, "request_id"@, 0);
    law_first_member_is_found(members, "parent_thread_id"@, 1);
    law_first_member_is_found(members, "thread_id"@, 2);
    if entry is Completed {
        law_first_member_is_found(members, "answer"@, 3);
    }
    if entry is Failed {
        law_first_member_is_found(members, "error"@, 3);
    }
}

} // verus!
