use codex_bridge::io_failure::{failure, FailureKind, IoFailure};
use codex_bridge::json::{member, Json};
use codex_bridge::supervisor::{
    existing_path_step, existing_socket_step, log_lifecycle, remove_socket_file_if_owned,
    socket_identity, validate_socket_path, AcceptEvent, AcceptLoop, AcceptStep, CleanupStep,
    ExistingStep, ListenerExit, PathEntry, RebindEvent, RebindStep, SocketIdentity, Supervisor,
    SupervisorPhase, MAX_CONNECTION_WORKERS,
};

const SOCKET: PathEntry = PathEntry { is_socket: true, device: 1, inode: 2 };
const FILE: PathEntry = PathEntry { is_socket: false, device: 1, inode: 2 };
const OWN: SocketIdentity = SocketIdentity { device: 1, inode: 2 };
const OTHER: SocketIdentity = SocketIdentity { device: 1, inode: 3 };

fn failed(kind: FailureKind) -> IoFailure {
    failure(kind, "boom")
}

#[test]
fn socket_paths_are_absolute_with_a_parent() {
    assert_eq!(validate_socket_path(true, true), Ok(()));
    assert_eq!(
        validate_socket_path(false, true),
        Err(failure(FailureKind::InvalidInput, "control socket path must be absolute"))
    );
    assert_eq!(
        validate_socket_path(true, false),
        Err(failure(
            FailureKind::InvalidInput,
            "control socket path must include a parent directory"
        ))
    );
}

#[test]
fn identities_belong_to_sockets() {
    assert_eq!(socket_identity("/p", Ok(SOCKET)), Ok(OWN));
    assert_eq!(
        socket_identity("/p", Ok(FILE)),
        Err(failure(FailureKind::InvalidData, "control socket path is not a socket: /p"))
    );
    assert_eq!(
        socket_identity("/p", Err(failed(FailureKind::NotFound))),
        Err(failed(FailureKind::NotFound))
    );
}

#[test]
fn only_dead_sockets_are_overwritten() {
    assert_eq!(
        existing_path_step("/p", Err(failed(FailureKind::NotFound))),
        ExistingStep::Proceed
    );
    assert_eq!(
        existing_path_step("/p", Err(failed(FailureKind::Other))),
        ExistingStep::Refuse(failed(FailureKind::Other))
    );
    assert_eq!(existing_path_step("/p", Ok(SOCKET)), ExistingStep::Connect);
    assert_eq!(
        existing_path_step("/p", Ok(FILE)),
        ExistingStep::Refuse(failure(
            FailureKind::AlreadyExists,
            "refusing to overwrite existing non-socket path: /p"
        ))
    );
    assert_eq!(existing_socket_step("/p", Err(failed(FailureKind::ConnectionRefused))), Ok(()));
    assert_eq!(existing_socket_step("/p", Err(failed(FailureKind::NotFound))), Ok(()));
    assert_eq!(
        existing_socket_step("/p", Ok(())),
        Err(failure(FailureKind::AlreadyExists, "control socket is already active at /p"))
    );
    assert_eq!(
        existing_socket_step("/p", Err(failed(FailureKind::Other))),
        Err(failure(
            FailureKind::AlreadyExists,
            "control socket path exists and could not be verified as stale (/p): boom"
        ))
    );
}

#[test]
fn replacement_sockets_are_left_alone() {
    assert_eq!(remove_socket_file_if_owned(Ok(OWN), OWN), CleanupStep::Remove);
    assert_eq!(remove_socket_file_if_owned(Ok(OTHER), OWN), CleanupStep::Keep);
    for kind in [FailureKind::NotFound, FailureKind::InvalidData] {
        assert_eq!(remove_socket_file_if_owned(Err(failed(kind)), OWN), CleanupStep::Keep);
    }
    assert_eq!(
        remove_socket_file_if_owned(Err(failed(FailureKind::Other)), OWN),
        CleanupStep::Fail(failed(FailureKind::Other))
    );
}

#[test]
fn listeners_watch_their_path() {
    let mut accept = AcceptLoop::new(OWN);
    assert_eq!(
        accept.run_listener_generation(AcceptEvent::Idle { current: Ok(OWN) }),
        AcceptStep::Sleep { millis: 50 }
    );
    assert_eq!(
        accept.run_listener_generation(AcceptEvent::Idle { current: Ok(OTHER) }),
        AcceptStep::Exit(ListenerExit::PathReplaced)
    );
    assert_eq!(
        accept.run_listener_generation(AcceptEvent::Idle {
            current: Err(failed(FailureKind::NotFound))
        }),
        AcceptStep::Exit(ListenerExit::PathMissing)
    );
    assert_eq!(
        accept.run_listener_generation(AcceptEvent::Idle {
            current: Err(failed(FailureKind::InvalidData))
        }),
        AcceptStep::Exit(ListenerExit::AcceptFailed(failed(FailureKind::InvalidData)))
    );
    assert_eq!(
        accept.run_listener_generation(AcceptEvent::Shutdown),
        AcceptStep::Exit(ListenerExit::Shutdown)
    );
}

#[test]
fn connections_are_bounded() {
    let mut accept = AcceptLoop::new(OWN);
    assert_eq!(
        accept.run_listener_generation(AcceptEvent::Accepted {
            active_workers: MAX_CONNECTION_WORKERS - 1
        }),
        AcceptStep::Serve
    );
    assert_eq!(
        accept.run_listener_generation(AcceptEvent::Accepted {
            active_workers: MAX_CONNECTION_WORKERS
        }),
        AcceptStep::Drop
    );
}

#[test]
fn third_failure_in_a_row_ends_a_listener() {
    let mut accept = AcceptLoop::new(OWN);
    let sleep = AcceptStep::Sleep { millis: 200 };
    let event = || AcceptEvent::Failed(failed(FailureKind::Other));
    assert_eq!(accept.run_listener_generation(event()), sleep);
    assert_eq!(accept.run_listener_generation(event()), sleep);
    accept.run_listener_generation(AcceptEvent::Accepted { active_workers: 0 });
    assert_eq!(accept.run_listener_generation(event()), sleep);
    accept.run_listener_generation(AcceptEvent::Idle { current: Ok(OWN) });
    assert_eq!(accept.run_listener_generation(event()), sleep);
    assert_eq!(
        accept.run_listener_generation(event()),
        AcceptStep::Exit(ListenerExit::AcceptFailed(failed(FailureKind::Other)))
    );
}

#[test]
fn listeners_come_back_with_growing_pauses() {
    let (mut supervisor, started) = Supervisor::start("epoch-1".to_string());
    assert_eq!(started.event_type, "control_socket_started");
    assert_eq!(started.generation, 1);
    let degraded = supervisor.generation_ended(ListenerExit::PathMissing);
    assert_eq!(degraded.event_type, "control_socket_degraded");
    assert_eq!(degraded.reason.as_deref(), Some("socket path disappeared"));
    for millis in [50, 100, 200, 400, 800, 1000, 1000] {
        assert_eq!(supervisor.rebind(RebindEvent::Failed), RebindStep::Sleep { millis });
    }
    let step = supervisor.rebind(RebindEvent::Bound { epoch: "epoch-2".to_string() });
    match step {
        RebindStep::Serve(entry) => {
            assert_eq!(entry.event_type, "control_socket_restarted");
            assert_eq!(entry.generation, 2);
            assert_eq!(
                log_lifecycle("/p", &entry),
                Json::Object(vec![
                    member("path", Json::text("/p")),
                    member("generation", Json::Unsigned(2)),
                    member("epoch", Json::text("epoch-2")),
                    member("reason", Json::Null),
                ])
            );
        }
        other => panic!("expected a listener, got {other:?}"),
    }
    let stopped = supervisor.generation_ended(ListenerExit::Shutdown);
    assert_eq!(stopped.event_type, "control_socket_stopped");
    assert_eq!(stopped.epoch, "epoch-2");
    assert_eq!(supervisor.phase, SupervisorPhase::Stopped);
}

#[test]
fn ends_of_listeners_have_reasons() {
    for (exit, reason) in [
        (ListenerExit::PathReplaced, "socket path ownership changed"),
        (
            ListenerExit::AcceptFailed(failed(FailureKind::Other)),
            "listener accept failed: boom",
        ),
    ] {
        let (mut supervisor, _) = Supervisor::start("e".to_string());
        assert_eq!(supervisor.generation_ended(exit).reason.as_deref(), Some(reason));
        assert_eq!(supervisor.rebind(RebindEvent::Shutdown), RebindStep::Stop);
        assert_eq!(supervisor.phase, SupervisorPhase::Stopped);
    }
}

#[test]
fn generations_are_logged_in_order() {
    let (mut supervisor, started) = Supervisor::start("epoch-1".to_string());
    let mut entries = vec![started];
    for generation in 2..5 {
        entries.push(supervisor.generation_ended(ListenerExit::PathReplaced));
        for millis in [50, 100] {
            assert_eq!(supervisor.rebind(RebindEvent::Failed), RebindStep::Sleep { millis });
        }
        match supervisor.rebind(RebindEvent::Bound { epoch: format!("epoch-{generation}") }) {
            RebindStep::Serve(entry) => entries.push(entry),
            other => panic!("expected a listener, got {other:?}"),
        }
    }
    entries.push(supervisor.generation_ended(ListenerExit::Shutdown));
    let seen: Vec<(&str, u64, &str)> = entries
        .iter()
        .map(|entry| (entry.event_type.as_str(), entry.generation, entry.epoch.as_str()))
        .collect();
    assert_eq!(
        seen,
        vec![
            ("control_socket_started", 1, "epoch-1"),
            ("control_socket_degraded", 1, "epoch-1"),
            ("control_socket_restarted", 2, "epoch-2"),
            ("control_socket_degraded", 2, "epoch-2"),
            ("control_socket_restarted", 3, "epoch-3"),
            ("control_socket_degraded", 3, "epoch-3"),
            ("control_socket_restarted", 4, "epoch-4"),
            ("control_socket_stopped", 4, "epoch-4"),
        ]
    );
}
