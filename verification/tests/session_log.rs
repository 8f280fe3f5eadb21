use codex_bridge::app_event::{AppEvent, ExitMode, ProtocolEvent};
use codex_bridge::external_btw::BtwLog;
use codex_bridge::io_failure::FailureKind;
use codex_bridge::json::{member, Json};
use codex_bridge::session_log::{
    btw_record, event_stream_sink, fresh_session_log_filename, legacy_session_start, legacy_session_start_at,
    normalize_contract_event_type, plan_init, session_log_filename, session_start_payload,
    validate_schema_version, write_legacy_record, EventStreamState, InitPlan, LogMode, SessionInfo,
    SessionLogger, StreamSink, EVENT_SCHEMA_CURRENT, EVENT_SCHEMA_V1, EVENT_SCHEMA_V2,
};
use codex_bridge::thread_id::ThreadId;
use serde_json::Value;

const V1_TURN_STARTED: &str = r#"{
  "schema_version": 1,
  "ts": "2026-03-01T00:00:00.000Z",
  "session_id": "01957117-d96d-7f17-af57-af28ec451245",
  "event_type": "turn_started",
  "payload": {
    "turn_id": "turn_001",
    "model_context_window": 128000,
    "collaboration_mode_kind": "none"
  }
}"#;

const V2_TURN_STARTED: &str = r#"{
  "schema_version": 2,
  "ts": "2026-03-01T00:00:00.000Z",
  "session_id": "01957117-d96d-7f17-af57-af28ec451245",
  "seq": 42,
  "session_epoch": 1,
  "event_type": "turn_started",
  "payload": {
    "turn_id": "turn_001",
    "model_context_window": 128000,
    "collaboration_mode_kind": "none"
  }
}"#;

const TS: &str = "2026-03-01T00:00:00.000Z";
const SESSION: u128 = 0x01957117_d96d_7f17_af57_af28ec451245;

fn assert_common_fields(record: &Value) {
    assert!(record.get("schema_version").and_then(Value::as_u64).is_some());
    assert!(record.get("ts").and_then(Value::as_str).is_some());
    assert!(record.get("session_id").and_then(Value::as_str).is_some());
    assert!(record.get("event_type").and_then(Value::as_str).is_some());
    assert!(record.get("payload").is_some());
    assert!(record.get("payload").is_some_and(Value::is_object));
}

fn to_value(json: &Json) -> Value {
    match json {
        Json::Null => Value::Null,
        Json::Bool(b) => Value::from(*b),
        Json::Unsigned(n) => Value::from(*n),
        Json::Negative(n) => Value::from(*n),
        Json::Decimal(text) => serde_json::from_str(text).unwrap(),
        Json::Text(text) => Value::from(text.as_str()),
        Json::Array(items) => Value::Array(items.iter().map(to_value).collect()),
        Json::Object(members) => Value::Object(
            members.iter().map(|m| (m.key.clone(), to_value(&m.value))).collect(),
        ),
    }
}

fn task_started() -> ProtocolEvent {
    let msg = || {
        Json::Object(vec![
            member("type", Json::text("task_started")),
            member("turn_id", Json::text("turn_001")),
            member("model_context_window", Json::Unsigned(128000)),
            member("collaboration_mode_kind", Json::text("none")),
        ])
    };
    ProtocolEvent {
        encoded: Json::Object(vec![member("id", Json::text("0")), member("msg", msg())]),
        msg: Some(msg()),
    }
}

fn open_stream(schema_version: u32) -> SessionLogger {
    let mut logger = SessionLogger::new();
    assert_eq!(logger.open_event_stream(schema_version), Ok(true));
    logger
}

fn open_legacy() -> SessionLogger {
    let mut logger = SessionLogger::new();
    assert!(logger.open_legacy());
    logger
}

fn is_utc_stamp(ts: &str) -> bool {
    let shape: String = ts
        .chars()
        .map(|c| if c.is_ascii_digit() { '0' } else { c })
        .collect();
    shape == "0000-00-00T00:00:00.000Z"
}

#[test]
fn accepts_previous_schema_fixture() {
    let record: Value = serde_json::from_str(V1_TURN_STARTED).expect("fixture parses");
    assert_common_fields(&record);
    assert_eq!(record["schema_version"], Value::from(EVENT_SCHEMA_V1));
    assert!(record.get("seq").is_none());
    assert!(record.get("session_epoch").is_none());

    let mut logger = open_stream(EVENT_SCHEMA_V1);
    let event =
        AppEvent::ThreadEvent { thread_id: ThreadId { uuid: SESSION }, event: task_started() };
    let written = logger.inbound_app_event_at(TS, &event, "").unwrap();
    assert_eq!(to_value(&written), record);
}

#[test]
fn accepts_current_schema_fixture() {
    let record: Value = serde_json::from_str(V2_TURN_STARTED).expect("fixture parses");
    assert_common_fields(&record);
    assert_eq!(record["schema_version"], Value::from(EVENT_SCHEMA_CURRENT));
    assert!(record.get("seq").and_then(Value::as_u64).is_some());
    assert!(record.get("session_epoch").and_then(Value::as_u64).is_some());

    let mut logger = open_stream(EVENT_SCHEMA_CURRENT);
    for _ in 0..41 {
        logger.log_session_end();
    }
    let event =
        AppEvent::ThreadEvent { thread_id: ThreadId { uuid: SESSION }, event: task_started() };
    let written = logger.inbound_app_event_at(TS, &event, "").unwrap();
    assert_eq!(to_value(&written), record);
}

#[test]
fn rejects_unsupported_schema_versions() {
    assert!(validate_schema_version(0).is_err());
    assert!(validate_schema_version(EVENT_SCHEMA_V2 + 1).is_err());
    assert!(validate_schema_version(EVENT_SCHEMA_V1).is_ok());
    assert!(validate_schema_version(EVENT_SCHEMA_V2).is_ok());
}

#[test]
fn normalizes_legacy_turn_event_names() {
    assert_eq!(normalize_contract_event_type("task_started"), "turn_started");
    assert_eq!(normalize_contract_event_type("task_complete"), "turn_complete");
    assert_eq!(normalize_contract_event_type("exec_command_begin"), "exec_command_begin");
}

#[test]
fn normalized_event_names_are_stable() {
    for name in ["turn_started", "turn_complete", "task", ""] {
        assert_eq!(normalize_contract_event_type(name), name);
    }
}

#[test]
fn unsupported_schema_versions_are_named() {
    let error = validate_schema_version(4294967295).unwrap_err();
    assert_eq!(error.kind, FailureKind::InvalidInput);
    assert_eq!(
        error.message,
        "unsupported event schema version `4294967295`; supported versions are 1 and 2"
    );
}

#[test]
fn records_are_numbered_from_one() {
    let mut logger = open_stream(2);
    for expected in 1..=3 {
        let record = logger
            .event_stream_record_at(TS, "note", Json::Object(Vec::new()), None)
            .unwrap();
        assert_eq!(record.get("seq"), Some(&Json::Unsigned(expected)));
        assert_eq!(record.get("session_epoch"), Some(&Json::Unsigned(1)));
    }
    assert!(logger.has_room());
}

#[test]
fn unknown_schemas_count_but_leave_no_record() {
    let mut state =
        EventStreamState { schema_version: 7, seq: 4, session_epoch: 1, session_id: None };
    assert_eq!(state.record_at(TS, "note", Json::Null, None), None);
    assert_eq!(state.seq, 5);
}

#[test]
fn session_ids_are_remembered() {
    let mut logger = open_stream(2);
    let payload = |id: &str| Json::Object(vec![member("session_id", Json::text(id))]);
    let before = logger.event_stream_record_at(TS, "note", payload("ignored"), None).unwrap();
    assert_eq!(before.get_text("session_id"), Some("unknown"));
    let configured =
        logger.event_stream_record_at(TS, "session_configured", payload("s-1"), None).unwrap();
    assert_eq!(configured.get_text("session_id"), Some("s-1"));
    let given = logger
        .event_stream_record_at(TS, "note", Json::Null, Some("thread".to_string()))
        .unwrap();
    assert_eq!(given.get_text("session_id"), Some("thread"));
    let unnamed =
        logger.event_stream_record_at(TS, "session_configured", Json::Null, None).unwrap();
    assert_eq!(unnamed.get_text("session_id"), Some("s-1"));
    let later = logger.event_stream_record_at(TS, "note", Json::Null, None).unwrap();
    assert_eq!(later.get_text("session_id"), Some("s-1"));
}

#[test]
fn protocol_payloads_lose_their_type_only() {
    let mut logger = open_stream(1);
    let record = logger.protocol_event_at(TS, &task_started(), None).unwrap();
    assert_eq!(record.get_text("event_type"), Some("turn_started"));
    assert_eq!(
        record.get("payload"),
        Some(&Json::Object(vec![
            member("turn_id", Json::text("turn_001")),
            member("model_context_window", Json::Unsigned(128000)),
            member("collaboration_mode_kind", Json::text("none")),
        ]))
    );
    let nameless = ProtocolEvent { encoded: Json::Null, msg: Some(Json::Negative(-1)) };
    let record = logger.protocol_event_at(TS, &nameless, None).unwrap();
    assert_eq!(record.get_text("event_type"), Some("unknown"));
    assert_eq!(record.get("payload"), Some(&Json::Negative(-1)));
    let broken = ProtocolEvent { encoded: Json::Null, msg: None };
    assert_eq!(logger.write_protocol_event(&broken, None), None);
}

#[test]
fn records_are_stamped_with_the_current_time() {
    let mut logger = open_stream(2);
    let record = logger.write_event_stream_record("note", Json::Null, None).unwrap();
    assert!(is_utc_stamp(record.get_text("ts").unwrap()));
    let record = logger.write_protocol_event(&task_started(), None).unwrap();
    assert!(is_utc_stamp(record.get_text("ts").unwrap()));
    let mut legacy = open_legacy();
    let record = legacy.log_outbound_op(Some(Json::Null), None).unwrap();
    assert!(is_utc_stamp(record.get_text("ts").unwrap()));
    let record = legacy.log_inbound_app_event(&AppEvent::ClearUi, "ClearUi").unwrap();
    assert!(is_utc_stamp(record.get_text("ts").unwrap()));
}

#[test]
fn event_streams_ignore_what_is_no_protocol_event() {
    let mut logger = open_stream(2);
    assert_eq!(logger.log_inbound_app_event(&AppEvent::NewSession, "NewSession"), None);
    let record = logger.inbound_app_event_at(TS, &AppEvent::CodexEvent(task_started()), "").unwrap();
    assert_eq!(record.get("seq"), Some(&Json::Unsigned(1)));
}

#[test]
fn submitted_commands_are_recorded() {
    let mut stream = open_stream(2);
    let record = stream
        .outbound_op_at(TS, Some(Json::text("op")), Some(ThreadId { uuid: SESSION }))
        .unwrap();
    assert_eq!(record.get_text("event_type"), Some("op_submitted"));
    assert_eq!(record.get_text("session_id"), Some("01957117-d96d-7f17-af57-af28ec451245"));
    assert_eq!(stream.outbound_op_at(TS, None, None), None);
    let mut legacy = open_legacy();
    assert_eq!(
        legacy.outbound_op_at(TS, Some(Json::text("op")), None),
        Some(write_legacy_record(TS, "from_tui", "op", Json::text("op")))
    );
}

#[test]
fn sessions_end_with_a_record() {
    let mut stream = open_stream(2);
    let record = stream.session_end_at(TS).unwrap();
    assert_eq!(record.get_text("event_type"), Some("session_end"));
    assert_eq!(record.get("payload"), Some(&Json::Object(Vec::new())));
    let mut legacy = open_legacy();
    assert_eq!(
        legacy.session_end_at(TS),
        Some(Json::Object(vec![
            member("ts", Json::text(TS)),
            member("dir", Json::text("meta")),
            member("kind", Json::text("session_end")),
        ]))
    );
    assert_eq!(SessionLogger::new().log_session_end(), None);
}

#[test]
fn legacy_records_name_their_events() {
    let mut logger = open_legacy();
    let mut record = |event: AppEvent, debug: &str| {
        logger.inbound_app_event_at(TS, &event, debug).unwrap()
    };
    assert_eq!(
        record(AppEvent::CodexEvent(task_started()), ""),
        write_legacy_record(TS, "to_tui", "codex_event", task_started().encoded)
    );
    assert_eq!(record(AppEvent::NewSession, "").get_text("kind"), Some("new_session"));
    assert_eq!(record(AppEvent::ClearUi, "").get_text("kind"), Some("clear_ui"));
    let cell = record(AppEvent::InsertHistoryCell { transcript_lines: 3 }, "");
    assert_eq!(cell.get_text("kind"), Some("insert_history_cell"));
    assert_eq!(cell.get("lines"), Some(&Json::Unsigned(3)));
    let search = record(AppEvent::StartFileSearch("q".to_string()), "");
    assert_eq!(search.get_text("kind"), Some("file_search_start"));
    assert_eq!(search.get_text("query"), Some("q"));
    let found = record(
        AppEvent::FileSearchResult {
            query: "q".to_string(),
            matches: vec!["a".to_string(), "b".to_string()],
        },
        "",
    );
    assert_eq!(found.get("matches"), Some(&Json::Unsigned(2)));
    let other = record(AppEvent::Other, "OpenPanel(Settings(1))");
    assert_eq!(other.get_text("kind"), Some("app_event"));
    assert_eq!(other.get_text("variant"), Some("OpenPanel"));
    assert_eq!(record(AppEvent::Other, "Redraw").get_text("variant"), Some("Redraw"));
    let exit = AppEvent::Exit(ExitMode::Immediate);
    let debug = format!("{exit:?}");
    assert_eq!(record(exit, &debug).get_text("variant"), Some("Exit"));
}

#[test]
fn first_destination_stays() {
    let mut logger = SessionLogger::new();
    assert!(!logger.is_enabled());
    assert_eq!(logger.mode(), None);
    assert!(logger.open_legacy());
    assert_eq!(logger.open_event_stream(2), Ok(false));
    assert!(logger.is_enabled());
    assert_eq!(logger.mode(), Some(LogMode::Legacy));
    assert!(!open_stream(1).open_legacy());
}

#[test]
fn streams_go_where_the_terminal_is_not() {
    assert_eq!(event_stream_sink("-", 2, true), Ok(StreamSink::Stderr));
    assert_eq!(event_stream_sink("-", 1, false), Ok(StreamSink::Stdout));
    assert_eq!(event_stream_sink("log", 2, true), Ok(StreamSink::File("log".to_string())));
    assert!(event_stream_sink("-", 3, false).is_err());
}

#[test]
fn logging_is_planned_from_arguments_and_environment() {
    let text = |s: &str| Some(s.to_string());
    assert_eq!(
        plan_init(text("-"), None, None, None),
        Ok(InitPlan::EventStream { target: "-".to_string(), schema_version: 2 })
    );
    assert_eq!(
        plan_init(text("f"), Some(1), text("1"), None),
        Ok(InitPlan::EventStream { target: "f".to_string(), schema_version: 1 })
    );
    assert_eq!(
        plan_init(None, Some(1), None, None).unwrap_err().message,
        "--event-schema-version requires --event-stream"
    );
    for word in ["1", "true", "TRUE", "yes", "YES"] {
        assert_eq!(
            plan_init(None, None, text(word), text("p")),
            Ok(InitPlan::Legacy { path: text("p") })
        );
    }
    for word in ["0", "True", ""] {
        assert_eq!(plan_init(None, None, text(word), text("p")), Ok(InitPlan::Disabled));
    }
    assert_eq!(plan_init(None, None, None, None), Ok(InitPlan::Disabled));
}

#[test]
fn log_files_are_named_after_their_time() {
    assert_eq!(session_log_filename("20260301T000000Z"), "session-20260301T000000Z.jsonl");
    let shape: String = fresh_session_log_filename()
        .chars()
        .map(|c| if c.is_ascii_digit() { '0' } else { c })
        .collect();
    assert_eq!(shape, "session-00000000T000000Z.jsonl");
}

#[test]
fn unsupported_schemas_leave_the_log_closed() {
    for schema_version in [0, 3, 4294967295] {
        let mut logger = SessionLogger::new();
        let error = logger.open_event_stream(schema_version).unwrap_err();
        assert_eq!(error.kind, FailureKind::InvalidInput);
        assert!(!logger.is_enabled());
        assert_eq!(logger.mode(), None);
        assert!(logger.start_event_stream(schema_version, &session_info()).is_err());
        assert!(!logger.is_enabled());
        assert_eq!(logger.mode(), None);
        assert_eq!(logger.open_event_stream(1), Ok(true));
        assert_eq!(logger.mode(), Some(LogMode::EventStream));
        assert!(logger.open_event_stream(schema_version).is_err());
        assert!(logger.session_end_at(TS).is_some());
    }
}

#[test]
fn streams_start_with_their_session() {
    for schema_version in [1, 2] {
        let mut logger = SessionLogger::new();
        let start = logger.start_event_stream_at(TS, schema_version, &session_info()).unwrap();
        assert!(start.installed);
        let record = start.record;
        assert_eq!(record.get("schema_version"), Some(&Json::Unsigned(schema_version as u64)));
        assert_eq!(record.get_text("ts"), Some(TS));
        assert_eq!(record.get_text("event_type"), Some("session_start"));
        assert_eq!(record.get_text("session_id"), Some("unknown"));
        assert_eq!(record.get("payload"), Some(&session_start_payload(&session_info())));
        let number = Json::Unsigned(1);
        assert_eq!(record.get("seq"), (schema_version == 2).then_some(&number));
        assert_eq!(logger.mode(), Some(LogMode::EventStream));
        let again = logger.start_event_stream(schema_version, &session_info()).unwrap();
        assert!(!again.installed);
        assert!(is_utc_stamp(again.record.get_text("ts").unwrap()));
    }
}

fn session_info() -> SessionInfo {
    SessionInfo {
        cwd: "/work".to_string(),
        model: None,
        model_provider_id: "id".to_string(),
        model_provider_name: "name".to_string(),
    }
}

#[test]
fn sessions_start_with_what_is_known_of_them() {
    let info = session_info();
    let payload = session_start_payload(&info);
    assert_eq!(
        payload,
        Json::Object(vec![
            member("cwd", Json::text("/work")),
            member("model", Json::Null),
            member("model_provider_id", Json::text("id")),
            member("model_provider_name", Json::text("name")),
        ])
    );
    let record = legacy_session_start_at(TS, &info);
    assert_eq!(record.get_text("dir"), Some("meta"));
    assert_eq!(record.get_text("kind"), Some("session_start"));
    assert_eq!(record.get_text("cwd"), Some("/work"));
    assert!(is_utc_stamp(legacy_session_start(&info).get_text("ts").unwrap()));
}

#[test]
fn json_objects_find_their_first_member() {
    let object = Json::Object(vec![
        member("a", Json::Unsigned(1)),
        member("b", Json::text("two")),
        member("a", Json::Unsigned(3)),
    ]);
    assert_eq!(object.get("a"), Some(&Json::Unsigned(1)));
    assert_eq!(object.get_text("a"), None);
    assert_eq!(object.get_text("b"), Some("two"));
    assert_eq!(Json::Null.get("a"), None);
    assert_eq!(object.duplicate(), object);
    assert_eq!(object.without("a"), Json::Object(vec![member("b", Json::text("two"))]));
    assert_eq!(Json::Bool(true).without("a"), Json::Bool(true));
}

#[test]
fn side_conversations_have_records() {
    let parent = ThreadId { uuid: 0 };
    let thread = ThreadId { uuid: SESSION };
    let parent_text = "00000000-0000-0000-0000-000000000000";
    let thread_text = "01957117-d96d-7f17-af57-af28ec451245";
    let head = |parent: Json, thread: Json| {
        vec![
            member("request_id", Json::text("r")),
            member("parent_thread_id", parent),
            member("thread_id", thread),
        ]
    };
    let started = BtwLog::Started {
        request_id: "r".to_string(),
        parent_thread_id: parent,
        thread_id: thread,
    };
    assert_eq!(
        btw_record(&started),
        (
            "btw_started".to_string(),
            Json::Object(head(Json::text(parent_text), Json::text(thread_text)))
        )
    );
    let completed = BtwLog::Completed {
        request_id: "r".to_string(),
        parent_thread_id: parent,
        thread_id: thread,
        answer: "a".to_string(),
    };
    let mut members = head(Json::text(parent_text), Json::text(thread_text));
    members.push(member("answer", Json::text("a")));
    assert_eq!(
        btw_record(&completed),
        ("btw_completed".to_string(), Json::Object(members))
    );
    let failed = BtwLog::Failed {
        request_id: "r".to_string(),
        parent_thread_id: Some(parent),
        thread_id: None,
        error: "e".to_string(),
    };
    let mut members = head(Json::text(parent_text), Json::Null);
    members.push(member("error", Json::text("e")));
    assert_eq!(btw_record(&failed), ("btw_failed".to_string(), Json::Object(members)));
}

#[test]
fn stream_events_are_for_event_streams() {
    let mut stream = open_stream(2);
    let record = stream.stream_event_at(TS, "btw_started", Json::Null).unwrap();
    assert_eq!(record.get_text("event_type"), Some("btw_started"));
    assert_eq!(record.get("seq"), Some(&Json::Unsigned(1)));
    let record = stream.log_stream_event("btw_failed", Json::Null).unwrap();
    assert!(is_utc_stamp(record.get_text("ts").unwrap()));
    assert_eq!(open_legacy().stream_event_at(TS, "btw_started", Json::Null), None);
    assert_eq!(SessionLogger::new().log_stream_event("btw_started", Json::Null), None);
}
