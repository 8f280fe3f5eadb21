use codex_bridge::app_event::{AppEvent, AppEventSender};
use codex_bridge::connection::{
    answer_decoded, answer_step, answer_step_without_cache, connection_step, ConnectionStep,
    LineReader, ReadEvent, ReadLineOutcome, Reply, REQUEST_MAX_CHARS,
};
use codex_bridge::control_response::response_err;
use codex_bridge::control_socket::{ControlCommand, ControlRequest, ControlState};
use codex_bridge::request_cache::RequestCache;
use tokio::sync::mpsc::unbounded_channel;

fn feed(reader: &mut LineReader, bytes: &[u8]) {
    for byte in bytes {
        assert_eq!(reader.read_line_capped(ReadEvent::Byte(*byte)), None);
    }
}

#[test]
fn lines_are_read_whole() {
    let mut reader = LineReader::new();
    feed(&mut reader, "{\"a\":\"中\"}".as_bytes());
    assert_eq!(reader.read_line_capped(ReadEvent::Retry), None);
    assert_eq!(
        reader.read_line_capped(ReadEvent::Byte(b'\n')),
        Some(ReadLineOutcome::Line("{\"a\":\"中\"}".to_string()))
    );
    assert_eq!(
        reader.read_line_capped(ReadEvent::Byte(b'\n')),
        Some(ReadLineOutcome::Line(String::new()))
    );
    assert_eq!(reader.read_line_capped(ReadEvent::EndOfInput), Some(ReadLineOutcome::Eof));
}

#[test]
fn last_line_needs_no_line_feed() {
    let mut reader = LineReader::new();
    feed(&mut reader, b"tail");
    assert_eq!(
        reader.read_line_capped(ReadEvent::EndOfInput),
        Some(ReadLineOutcome::Line("tail".to_string()))
    );
}

#[test]
fn shutdown_ends_a_line() {
    let mut reader = LineReader::new();
    feed(&mut reader, b"half");
    assert_eq!(reader.read_line_capped(ReadEvent::Shutdown), Some(ReadLineOutcome::Eof));
}

#[test]
fn long_lines_are_refused_and_forgotten() {
    let mut reader = LineReader::new();
    let longest = vec![b'x'; REQUEST_MAX_CHARS];
    feed(&mut reader, &longest);
    match reader.read_line_capped(ReadEvent::Byte(b'\n')) {
        Some(ReadLineOutcome::Line(line)) => assert_eq!(line.len(), REQUEST_MAX_CHARS),
        other => panic!("expected a line, got {other:?}"),
    }
    feed(&mut reader, &longest);
    feed(&mut reader, b"xy");
    assert_eq!(
        reader.read_line_capped(ReadEvent::Byte(b'\n')),
        Some(ReadLineOutcome::TooLarge)
    );
    feed(&mut reader, b"next");
    assert_eq!(
        reader.read_line_capped(ReadEvent::Byte(b'\n')),
        Some(ReadLineOutcome::Line("next".to_string()))
    );
}

#[test]
fn lines_must_be_utf8() {
    let mut reader = LineReader::new();
    feed(&mut reader, &[b'a', 0xff]);
    let outcome = reader.read_line_capped(ReadEvent::Byte(b'\n')).unwrap();
    let expected = format!(
        "request is not valid UTF-8: {}",
        String::from_utf8(vec![b'a', 0xff]).unwrap_err()
    );
    assert_eq!(outcome, ReadLineOutcome::Invalid(expected.clone()));
    assert_eq!(connection_step(outcome, "e"), ConnectionStep::Fail(expected));
}

#[test]
fn connections_follow_their_lines() {
    assert_eq!(connection_step(ReadLineOutcome::Eof, "e"), ConnectionStep::Stop);
    assert_eq!(
        connection_step(ReadLineOutcome::Line(" \r".to_string()), "e"),
        ConnectionStep::Skip
    );
    assert_eq!(
        connection_step(ReadLineOutcome::Line(" {} \r".to_string()), "e"),
        ConnectionStep::Decode("{}".to_string())
    );
    assert_eq!(
        connection_step(ReadLineOutcome::TooLarge, "e"),
        ConnectionStep::Respond(response_err(
            "",
            "e",
            "invalid_request",
            "request exceeds max length of 1048576 characters"
        ))
    );
}

#[test]
fn decoded_lines_are_answered() {
    let (tx, mut rx) = unbounded_channel();
    let mut state = ControlState::new(AppEventSender::new(tx), "epoch-1".to_string());
    let mut cache = RequestCache::new();
    assert_eq!(
        answer_decoded(&mut state, &mut cache, Err("expected value".to_string())),
        response_err(
            "",
            "epoch-1",
            "invalid_json",
            "failed to parse request JSON: expected value"
        )
    );
    let request = ControlRequest {
        request_id: "r".to_string(),
        expected_epoch: None,
        command: ControlCommand::SubmitMessage { message: "m".to_string(), thread_id: None },
    };
    assert!(answer_decoded(&mut state, &mut cache, Ok(request)).ok);
    assert_eq!(
        rx.try_recv(),
        Ok(AppEvent::SubmitExternalLiteralUserMessage { text: "m".to_string() })
    );
}

#[test]
fn each_line_gets_one_answer_in_order() {
    let (tx, _rx) = unbounded_channel();
    let mut state = ControlState::new(AppEventSender::new(tx), "epoch-1".to_string());
    let mut cache = RequestCache::new();
    let mut reader = LineReader::new();
    let mut input = b"one\n \t\n\ntwo\n".to_vec();
    input.extend(vec![b'x'; REQUEST_MAX_CHARS + 1]);
    input.extend(b"\nthree");
    let mut events: Vec<ReadEvent> = Vec::new();
    for byte in input {
        events.push(ReadEvent::Byte(byte));
        if byte == b'o' || byte == b'\n' {
            events.push(ReadEvent::Retry);
        }
    }
    events.push(ReadEvent::EndOfInput);
    events.push(ReadEvent::EndOfInput);
    let mut replies: Vec<Reply> = Vec::new();
    for event in events {
        let Some(outcome) = reader.read_line_capped(event) else {
            continue;
        };
        let step = connection_step(outcome, "epoch-1");
        let decoded = match &step {
            ConnectionStep::Decode(text) => Some(Err(text.clone())),
            _ => None,
        };
        replies.push(answer_step(&mut state, &mut cache, step, decoded));
    }
    let unread = |text: &str| {
        Reply::Write(response_err(
            "",
            "epoch-1",
            "invalid_json",
            &format!("failed to parse request JSON: {text}"),
        ))
    };
    assert_eq!(
        replies,
        vec![
            unread("one"),
            Reply::Silence,
            Reply::Silence,
            unread("two"),
            Reply::Write(response_err(
                "",
                "epoch-1",
                "invalid_request",
                "request exceeds max length of 1048576 characters"
            )),
            unread("three"),
            Reply::Stop,
        ]
    );
}

#[test]
fn lines_are_answered_without_a_cache() {
    let request = ControlRequest {
        request_id: "r".to_string(),
        expected_epoch: None,
        command: ControlCommand::GetEpoch,
    };
    let decode = || ConnectionStep::Decode("{}".to_string());
    assert_eq!(
        answer_step_without_cache("e", decode(), Some(Ok(request))),
        Reply::Write(response_err("r", "e", "internal_error", "control cache lock poisoned"))
    );
    assert_eq!(
        answer_step_without_cache("e", decode(), Some(Err("bad".to_string()))),
        Reply::Write(response_err(
            "",
            "e",
            "invalid_json",
            "failed to parse request JSON: bad"
        ))
    );
    assert_eq!(answer_step_without_cache("e", ConnectionStep::Stop, None), Reply::Stop);
    assert_eq!(answer_step_without_cache("e", ConnectionStep::Skip, None), Reply::Silence);
    assert_eq!(
        answer_step_without_cache("e", ConnectionStep::Fail("m".to_string()), None),
        Reply::Fail("m".to_string())
    );
}
