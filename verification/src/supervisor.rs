//! The life of the control socket: its path, its listener generations, and how it comes back
//! after a failure.

use crate::io_failure::{failure, FailureKind, FailureView, IoFailure};
use crate::json::{field, lookup, member, Json, JsonView, Member};
use crate::text::opt_view;
use vstd::prelude::*;
use vstd::string::*;

verus! {

/// How often the socket path is looked at, in milliseconds.
pub const PATH_CHECK_INTERVAL_MS: u64 = 50;

/// The longest pause between two attempts to bind again, in milliseconds.
pub const REBIND_MAX_DELAY_MS: u64 = 1000;

/// The pause after a failed accept, in milliseconds.
pub const ACCEPT_RETRY_MS: u64 = 200;

/// The number of failed accepts in a row that ends a listener.
pub const MAX_ACCEPT_ERRORS: u8 = 3;

/// The number of connections that are served at a time.
pub const MAX_CONNECTION_WORKERS: usize = 64;

/// What a path is found to be.
#[derive(Clone, Copy, Debug, PartialEq, Eq, Structural)]
pub struct PathEntry {
    pub is_socket: bool,
    pub device: u64,
    pub inode: u64,
}

/// The file behind a socket path.
#[derive(Clone, Copy, Debug, PartialEq, Eq, Structural)]
pub struct SocketIdentity {
    pub device: u64,
    pub inode: u64,
}

/// A failure whose message names a path.
fn path_failure(kind: FailureKind, message: &str, path: &str) -> (r: IoFailure)
    ensures
        r@ == (FailureView { kind, message: message@ + path@ }),
{
    let mut text = message.to_string();
    text.append(path);
    IoFailure { kind, message: text }
}

/// Whether a socket can be placed at a path, as far as the path itself tells.
pub fn validate_socket_path(is_absolute: bool, has_parent: bool) -> (r: Result<(), IoFailure>)
    ensures
        r is Ok <==> is_absolute && has_parent,
        r matches Err(error) ==> error@ == (FailureView {
            kind: FailureKind::InvalidInput,
            message: if is_absolute {
                "control socket path must include a parent directory"@
            } else {
                "control socket path must be absolute"@
            },
        }),
{
    if !is_absolute {
        return Err(failure(FailureKind::InvalidInput, "control socket path must be absolute"));
    }
    if !has_parent {
        return Err(
            failure(
                FailureKind::InvalidInput,
                "control socket path must include a parent directory",
            ),
        );
    }
    Ok(())
}

/// The identity of the socket at a path, given what the path was found to be.
pub fn socket_identity(path: &str, entry: Result<PathEntry, IoFailure>) -> (r: Result<
    SocketIdentity,
    IoFailure,
>)
    ensures
        match entry {
            Ok(found) => if found.is_socket {
                r == Ok::<SocketIdentity, IoFailure>(
                    SocketIdentity { device: found.device, inode: found.inode },
                )
            } else {
                r matches Err(error) && error@ == (FailureView {
                    kind: FailureKind::InvalidData,
                    message: "control socket path is not a socket: "@ + path@,
                })
            },
            Err(failed) => r == Err::<SocketIdentity, IoFailure>(failed),
        },
{
    match entry {
        Ok(found) => {
            if !found.is_socket {
                return Err(
                    path_failure(
                        FailureKind::InvalidData,
                        "control socket path is not a socket: ",
                        path,
                    ),
                );
            }
            Ok(SocketIdentity { device: found.device, inode: found.inode })
        },
        Err(failed) => Err(failed),
    }
}

/// What to do about something that already stands at the path.
#[derive(Debug, PartialEq, Eq)]
pub enum ExistingStep {
    /// Nothing is there.
    Proceed,
    /// A socket is there: find out whether somebody listens.
    Connect,
    /// It must be left alone.
    Refuse(IoFailure),
}

/// What to do about something that already stands at the path, by what it is.
pub fn existing_path_step(path: &str, entry: Result<PathEntry, IoFailure>) -> (r: ExistingStep)
    ensures
        match entry {
            Ok(found) => if found.is_socket {
                r is Connect
            } else {
                r matches ExistingStep::Refuse(error) && error@ == (FailureView {
                    kind: FailureKind::AlreadyExists,
                    message: "refusing to overwrite existing non-socket path: "@ + path@,
                })
            },
            Err(failed) => if failed.kind == FailureKind::NotFound {
                r is Proceed
            } else {
                r == ExistingStep::Refuse(failed)
            },
        },
{
    match entry {
        Ok(found) => {
            if found.is_socket {
                ExistingStep::Connect
            } else {
                ExistingStep::Refuse(
                    path_failure(
                        FailureKind::AlreadyExists,
                        "refusing to overwrite existing non-socket path: ",
                        path,
                    ),
                )
            }
        },
        Err(failed) => {
            if failed.kind == FailureKind::NotFound {
                ExistingStep::Proceed
            } else {
                ExistingStep::Refuse(failed)
            }
        },
    }
}

/// Whether the socket at the path may be removed, by what connecting to it came to: only one
/// that nobody listens to.
pub fn existing_socket_step(path: &str, connected: Result<(), IoFailure>) -> (r: Result<
    (),
    IoFailure,
>)
    ensures
        match connected {
            Ok(()) => r matches Err(error) && error@ == (FailureView {
                kind: FailureKind::AlreadyExists,
                message: "control socket is already active at "@ + path@,
            }),
            Err(failed) => if failed.kind == FailureKind::ConnectionRefused || failed.kind
                == FailureKind::NotFound {
                r is Ok
            } else {
                r matches Err(error) && error@ == (FailureView {
                    kind: FailureKind::AlreadyExists,
                    message: "control socket path exists and could not be verified as stale ("@
                        + path@ + "): "@ + failed.message@,
                })
            },
        },
{
    match connected {
        Ok(()) => Err(
            path_failure(
                FailureKind::AlreadyExists,
                "control socket is already active at ",
                path,
            ),
        ),
        Err(failed) => {
            if failed.kind == FailureKind::ConnectionRefused || failed.kind
                == FailureKind::NotFound {
                return Ok(());
            }
            let mut text = "control socket path exists and could not be verified as stale (".to_string();
            text.append(path);
            text.append("): ");
            text.append(failed.message.as_str());
            Err(IoFailure { kind: FailureKind::AlreadyExists, message: text })
        },
    }
}

/// What to do about the socket file once its listener is gone.
#[derive(Debug, PartialEq, Eq)]
pub enum CleanupStep {
    Remove,
    Keep,
    Fail(IoFailure),
}

/// A socket file is removed only by the listener that made it; what was put in its place is left
/// alone.
pub fn remove_socket_file_if_owned(
    current: Result<SocketIdentity, IoFailure>,
    owned: SocketIdentity,
) -> (r: CleanupStep)
    ensures
        match current {
            Ok(identity) => r == (if identity == owned {
                CleanupStep::Remove
            } else {
                CleanupStep::Keep
            }),
            Err(failed) => r == (if failed.kind == FailureKind::NotFound || failed.kind
                == FailureKind::InvalidData {
                CleanupStep::Keep
            } else {
                CleanupStep::Fail(failed)
            }),
        },
{
    match current {
        Ok(identity) => {
            if identity == owned {
                CleanupStep::Remove
            } else {
                CleanupStep::Keep
            }
        },
        Err(failed) => {
            if failed.kind == FailureKind::NotFound || failed.kind == FailureKind::InvalidData {
                CleanupStep::Keep
            } else {
                CleanupStep::Fail(failed)
            }
        },
    }
}

/// Why a listener ended.
#[derive(Debug, PartialEq, Eq)]
pub enum ListenerExit {
    Shutdown,
    PathMissing,
    PathReplaced,
    AcceptFailed(IoFailure),
}

/// What happened at a listener.
#[derive(Debug, PartialEq, Eq)]
pub enum AcceptEvent {
    /// The listener is asked to end.
    Shutdown,
    /// A connection came in while this many were being served.
    Accepted { active_workers: usize },
    /// No connection is waiting; this is what now stands at the path.
    Idle { current: Result<SocketIdentity, IoFailure> },
    /// Accepting failed.
    Failed(IoFailure),
}

/// What a listener does next.
#[derive(Debug, PartialEq, Eq)]
pub enum AcceptStep {
    Serve,
    Drop,
    Sleep { millis: u64 },
    Exit(ListenerExit),
}

/// A listener generation at work.
#[derive(Debug, PartialEq, Eq)]
pub struct AcceptLoop {
    pub identity: SocketIdentity,
    pub consecutive_accept_errors: u8,
}

/// The number of failed accepts in a row after an event.
pub open spec fn errors_after(errors: u8, event: AcceptEvent) -> int {
    match event {
        AcceptEvent::Accepted { .. } => 0,
        AcceptEvent::Failed(_) => if errors == 255 {
            255
        } else {
            errors + 1
        },
        _ => errors as int,
    }
}

/// What a listener does about an event.
pub open spec fn accept_step(identity: SocketIdentity, errors: u8, event: AcceptEvent) -> AcceptStep {
    match event {
        AcceptEvent::Shutdown => AcceptStep::Exit(ListenerExit::Shutdown),
        AcceptEvent::Accepted { active_workers } => if active_workers >= MAX_CONNECTION_WORKERS {
            AcceptStep::Drop
        } else {
            AcceptStep::Serve
        },
        AcceptEvent::Idle { current } => match current {
            Ok(found) => if found == identity {
                AcceptStep::Sleep { millis: PATH_CHECK_INTERVAL_MS }
            } else {
                AcceptStep::Exit(ListenerExit::PathReplaced)
            },
            Err(failed) => if failed.kind == FailureKind::NotFound {
                AcceptStep::Exit(ListenerExit::PathMissing)
            } else {
                AcceptStep::Exit(ListenerExit::AcceptFailed(failed))
            },
        },
        AcceptEvent::Failed(failed) => if errors_after(errors, event) >= MAX_ACCEPT_ERRORS {
            AcceptStep::Exit(ListenerExit::AcceptFailed(failed))
        } else {
            AcceptStep::Sleep { millis: ACCEPT_RETRY_MS }
        },
    }
}

impl AcceptLoop {
    pub fn new(identity: SocketIdentity) -> (r: AcceptLoop)
        ensures
            r.identity == identity,
            r.consecutive_accept_errors == 0,
    {
        AcceptLoop { identity, consecutive_accept_errors: 0 }
    }

    /// Takes in what happened at the listener.
    pub fn run_listener_generation(&mut self, event: AcceptEvent) -> (r: AcceptStep)
        ensures
            final(self).identity == old(self).identity,
            final(self).consecutive_accept_errors == errors_after(
                old(self).consecutive_accept_errors,
                event,
            ),
            r == accept_step(old(self).identity, old(self).consecutive_accept_errors, event),
    {
        match event {
            AcceptEvent::Shutdown => AcceptStep::Exit(ListenerExit::Shutdown),
            AcceptEvent::Accepted { active_workers } => {
                self.consecutive_accept_errors = 0;
                if active_workers >= MAX_CONNECTION_WORKERS {
                    AcceptStep::Drop
                } else {
                    AcceptStep::Serve
                }
            },
            AcceptEvent::Idle { current } => match current {
                Ok(found) => {
                    if found == self.identity {
                        AcceptStep::Sleep { millis: PATH_CHECK_INTERVAL_MS }
                    } else {
                        AcceptStep::Exit(ListenerExit::PathReplaced)
                    }
                },
                Err(failed) => {
                    if failed.kind == FailureKind::NotFound {
                        AcceptStep::Exit(ListenerExit::PathMissing)
                    } else {
                        AcceptStep::Exit(ListenerExit::AcceptFailed(failed))
                    }
                },
            },
            AcceptEvent::Failed(failed) => {
                if self.consecutive_accept_errors < 255 {
                    self.consecutive_accept_errors = self.consecutive_accept_errors + 1;
                }
                if self.consecutive_accept_errors >= MAX_ACCEPT_ERRORS {
                    AcceptStep::Exit(ListenerExit::AcceptFailed(failed))
                } else {
                    AcceptStep::Sleep { millis: ACCEPT_RETRY_MS }
                }
            },
        }
    }
}

/// A connection is served only where that keeps the number of those served within its bound.
pub proof fn law_workers_are_bounded(identity: SocketIdentity, errors: u8, active_workers: usize)
    requires
        active_workers <= MAX_CONNECTION_WORKERS,
    ensures
        accept_step(identity, errors, AcceptEvent::Accepted { active_workers }) is Serve
            ==> active_workers + 1 <= MAX_CONNECTION_WORKERS,
{
}

/// A connection that comes in while fewer than 64 are served is served, and one that comes in at the
/// limit is dropped, whatever failed before.
pub proof fn law_connections_are_served_up_to_the_limit(
    identity: SocketIdentity,
    errors: u8,
    active_workers: usize,
)
    ensures
        MAX_CONNECTION_WORKERS == 64,
        accept_step(identity, errors, AcceptEvent::Accepted { active_workers }) is Serve
            <==> active_workers < 64,
        accept_step(identity, errors, AcceptEvent::Accepted { active_workers }) is Drop
            <==> active_workers >= 64,
        errors_after(errors, AcceptEvent::Accepted { active_workers }) == 0,
{
}

/// A listener ends when it is asked to, and then for no other reason; while nothing comes in it goes
/// on exactly as long as its own socket stands at the path, looking every 50 ms. Neither counts as a
/// failed accept, nor makes up for one.
pub proof fn law_idle_listener_guards_its_path(
    identity: SocketIdentity,
    errors: u8,
    current: Result<SocketIdentity, IoFailure>,
)
    ensures
        accept_step(identity, errors, AcceptEvent::Shutdown) == AcceptStep::Exit(
            ListenerExit::Shutdown,
        ),
        ({
            let step = accept_step(identity, errors, AcceptEvent::Idle { current });
            &&& step == (AcceptStep::Sleep { millis: 50 }) <==> current == Ok::<
                SocketIdentity,
                IoFailure,
            >(identity)
            &&& step == AcceptStep::Exit(ListenerExit::PathReplaced) <==> (current matches Ok(found)
                && (found.device != identity.device || found.inode != identity.inode))
            &&& step == AcceptStep::Exit(ListenerExit::PathMissing) <==> (current matches Err(failed)
                && failed.kind == FailureKind::NotFound)
            &&& current matches Err(failed) ==> (failed.kind != FailureKind::NotFound ==> step
                == AcceptStep::Exit(ListenerExit::AcceptFailed(failed)))
        }),
        errors_after(errors, AcceptEvent::Shutdown) == errors,
        errors_after(errors, AcceptEvent::Idle { current }) == errors,
{
}

/// A failed accept counts as one more; it is followed by a pause of 200 ms until it is the third, and
/// the third ends the listener with the failure.
pub proof fn law_failed_accepts_are_retried_twice(
    identity: SocketIdentity,
    errors: u8,
    failed: IoFailure,
)
    ensures
        errors < 255 ==> errors_after(errors, AcceptEvent::Failed(failed)) == errors + 1,
        errors == 255 ==> errors_after(errors, AcceptEvent::Failed(failed)) == 255,
        errors < 2 <==> accept_step(identity, errors, AcceptEvent::Failed(failed)) == (
        AcceptStep::Sleep { millis: 200 }),
        errors >= 2 <==> accept_step(identity, errors, AcceptEvent::Failed(failed))
            == AcceptStep::Exit(ListenerExit::AcceptFailed(failed)),
{
}

/// The number of failed accepts in a row after the first `n` events of a new listener.
pub open spec fn errors_at(events: Seq<AcceptEvent>, n: nat) -> u8
    decreases n,
{
    if n == 0 {
        0
    } else {
        errors_after(errors_at(events, (n - 1) as nat), events[n - 1]) as u8
    }
}

/// What a new listener does about an event of a run.
pub open spec fn step_at(identity: SocketIdentity, events: Seq<AcceptEvent>, i: int) -> AcceptStep {
    accept_step(identity, errors_at(events, i as nat), events[i])
}

/// Whether a new listener is still at work after the first `n` events of a run.
pub open spec fn still_at_work(identity: SocketIdentity, events: Seq<AcceptEvent>, n: nat) -> bool {
    forall|i: int| 0 <= i < n ==> !((#[trigger] step_at(identity, events, i)) is Exit)
}

/// The number of failed accepts among the first `n` events of a run since the last connection that
/// came in.
pub open spec fn failures_since_accept(events: Seq<AcceptEvent>, n: nat) -> nat
    decreases n,
{
    if n == 0 {
        0
    } else {
        let before = failures_since_accept(events, (n - 1) as nat);
        match events[n - 1] {
            AcceptEvent::Accepted { .. } => 0,
            AcceptEvent::Failed(_) => before + 1,
            _ => before,
        }
    }
}

/// As long as a listener is at work, its count is that of the failures since the last connection,
/// and stays below the bound.
proof fn lemma_errors_are_counted(identity: SocketIdentity, events: Seq<AcceptEvent>, n: nat)
    requires
        n <= events.len(),
        still_at_work(identity, events, n),
    ensures
        errors_at(events, n) == failures_since_accept(events, n),
        errors_at(events, n) < MAX_ACCEPT_ERRORS,
    decreases n,
{
    if n > 0 {
        lemma_errors_are_counted(identity, events, (n - 1) as nat);
        assert(!(step_at(identity, events, n - 1) is Exit));
    }
}

/// Over any run of events, a failed accept ends the listener exactly if it is the third since the
/// last connection that came in, whatever idle spells lie between; and it ends it with that failure.
pub proof fn law_third_accept_error_ends_listener(
    identity: SocketIdentity,
    events: Seq<AcceptEvent>,
    i: int,
)
    requires
        0 <= i < events.len(),
        still_at_work(identity, events, i as nat),
        events[i] is Failed,
    ensures
        step_at(identity, events, i) is Exit <==> failures_since_accept(events, (i + 1) as nat)
            == MAX_ACCEPT_ERRORS,
        failures_since_accept(events, (i + 1) as nat) <= MAX_ACCEPT_ERRORS,
        step_at(identity, events, i) is Exit ==> step_at(identity, events, i) == AcceptStep::Exit(
            ListenerExit::AcceptFailed(events[i]->Failed_0),
        ),
        !(step_at(identity, events, i) is Exit) ==> step_at(identity, events, i)
            == (AcceptStep::Sleep { millis: ACCEPT_RETRY_MS }),
{
    lemma_errors_are_counted(identity, events, i as nat);
}

/// An entry of the socket's life in the session log.
#[derive(Debug, PartialEq, Eq)]
pub struct LifecycleEntry {
    pub event_type: String,
    pub generation: u64,
    pub epoch: String,
    pub reason: Option<String>,
}

/// The content of an entry.
#[verifier::ext_equal]
pub struct LifecycleView {
    pub event_type: Seq<char>,
    pub generation: u64,
    pub epoch: Seq<char>,
    pub reason: Option<Seq<char>>,
}

impl View for LifecycleEntry {
    type V = LifecycleView;

    open spec fn view(&self) -> LifecycleView {
        LifecycleView {
            event_type: self.event_type@,
            generation: self.generation,
            epoch: self.epoch@,
            reason: opt_view(self.reason),
        }
    }
}

/// The payload of an entry in the session log.
pub open spec fn lifecycle_payload_view(path: Seq<char>, entry: LifecycleView) -> JsonView {
    JsonView::Object(
        seq![
            ("path"@, JsonView::Text(path)),
            ("generation"@, JsonView::Unsigned(entry.generation)),
            ("epoch"@, JsonView::Text(entry.epoch)),
            (
                "reason"@,
                match entry.reason {
                    Some(reason) => JsonView::Text(reason),
                    None => JsonView::Null,
                },
            ),
        ],
    )
}

/// The payload of an entry in the session log.
pub fn log_lifecycle(path: &str, entry: &LifecycleEntry) -> (r: Json)
    ensures
        r@ == lifecycle_payload_view(path@, entry@),
{
    let mut members: Vec<Member> = Vec::new();
    members.push(member("path", Json::text(path)));
    members.push(member("generation", Json::Unsigned(entry.generation)));
    members.push(member("epoch", Json::text(entry.epoch.as_str())));
    let reason = match &entry.reason {
        Some(reason) => Json::text(reason.as_str()),
        None => Json::Null,
    };
    members.push(member("reason", reason));
    let r = Json::object(members);
    assert(r@->Object_0 =~= lifecycle_payload_view(path@, entry@)->Object_0);
    r
}

/// What the supervisor is about.
#[derive(Clone, Copy, Debug, PartialEq, Eq, Structural)]
pub enum SupervisorPhase {
    /// A listener is at work.
    Serving,
    /// The path is to be bound again, after this pause if the next attempt fails.
    Rebinding { delay_ms: u64 },
    /// All is over.
    Stopped,
}

/// The supervisor of the listener generations.
pub struct Supervisor {
    pub generation: u64,
    pub epoch: String,
    pub phase: SupervisorPhase,
}

/// Why a listener that was not asked to end did end.
pub open spec fn degraded_reason(exit: ListenerExit) -> Option<Seq<char>> {
    match exit {
        ListenerExit::Shutdown => None,
        ListenerExit::PathMissing => Some("socket path disappeared"@),
        ListenerExit::PathReplaced => Some("socket path ownership changed"@),
        ListenerExit::AcceptFailed(failed) => Some("listener accept failed: "@ + failed.message@),
    }
}

/// What an attempt to bind again came to.
#[derive(Debug, PartialEq, Eq)]
pub enum RebindEvent {
    /// The supervisor is asked to end; no attempt was made.
    Shutdown,
    /// The path is bound, under a new epoch.
    Bound { epoch: String },
    /// The path could not be bound.
    Failed,
}

/// What the supervisor does about an attempt to bind again.
#[derive(Debug, PartialEq, Eq)]
pub enum RebindStep {
    Stop,
    Serve(LifecycleEntry),
    Sleep { millis: u64 },
}

/// The next pause: twice as long, up to the longest.
pub open spec fn doubled(delay_ms: u64) -> int {
    if 2 * delay_ms <= REBIND_MAX_DELAY_MS {
        2 * delay_ms
    } else {
        REBIND_MAX_DELAY_MS as int
    }
}

/// The pause before the attempt after `failures` failed ones.
pub open spec fn rebind_delay(failures: nat) -> int
    decreases failures,
{
    if failures == 0 {
        PATH_CHECK_INTERVAL_MS as int
    } else {
        doubled(rebind_delay((failures - 1) as nat) as u64)
    }
}

/// The pauses grow from the shortest to the longest and stay there.
pub proof fn law_rebind_delay_is_bounded(failures: nat)
    ensures
        PATH_CHECK_INTERVAL_MS <= rebind_delay(failures) <= REBIND_MAX_DELAY_MS,
        rebind_delay(failures) <= rebind_delay(failures + 1),
        failures >= 5 ==> rebind_delay(failures) == REBIND_MAX_DELAY_MS,
    decreases failures,
{
    if failures > 0 {
        law_rebind_delay_is_bounded((failures - 1) as nat);
    }
    reveal_with_fuel(rebind_delay, 7);
}

/// The content of a supervisor.
#[verifier::ext_equal]
pub struct SupervisorView {
    pub generation: u64,
    pub epoch: Seq<char>,
    pub phase: SupervisorPhase,
}

impl View for Supervisor {
    type V = SupervisorView;

    open spec fn view(&self) -> SupervisorView {
        SupervisorView { generation: self.generation, epoch: self.epoch@, phase: self.phase }
    }
}

impl SupervisorView {
    /// The supervisor of a first listener.
    pub open spec fn started(epoch: Seq<char>) -> SupervisorView {
        SupervisorView { generation: 1, epoch, phase: SupervisorPhase::Serving }
    }

    /// The entry about the current listener.
    pub open spec fn entry(self, event_type: Seq<char>, reason: Option<Seq<char>>) -> LifecycleView {
        LifecycleView { event_type, generation: self.generation, epoch: self.epoch, reason }
    }

    /// The supervisor after its listener has ended.
    pub open spec fn ended(self, exit: ListenerExit) -> SupervisorView {
        SupervisorView {
            phase: if exit is Shutdown {
                SupervisorPhase::Stopped
            } else {
                SupervisorPhase::Rebinding { delay_ms: PATH_CHECK_INTERVAL_MS }
            },
            ..self
        }
    }

    /// The entry about the end of its listener.
    pub open spec fn ended_entry(self, exit: ListenerExit) -> LifecycleView {
        self.entry(
            if exit is Shutdown {
                "control_socket_stopped"@
            } else {
                "control_socket_degraded"@
            },
            degraded_reason(exit),
        )
    }

    /// The pause after an attempt that fails now.
    pub open spec fn pause(self) -> u64 {
        match self.phase {
            SupervisorPhase::Rebinding { delay_ms } => delay_ms,
            _ => 0,
        }
    }

    /// The supervisor after an attempt to bind has failed.
    pub open spec fn attempt_failed(self) -> SupervisorView {
        SupervisorView {
            phase: SupervisorPhase::Rebinding { delay_ms: doubled(self.pause()) as u64 },
            ..self
        }
    }

    /// The supervisor after several attempts to bind have failed.
    pub open spec fn attempts_failed(self, n: nat) -> SupervisorView
        decreases n,
    {
        if n == 0 {
            self
        } else {
            self.attempts_failed((n - 1) as nat).attempt_failed()
        }
    }

    /// The supervisor of the next listener.
    pub open spec fn rebound(self, epoch: Seq<char>) -> SupervisorView {
        SupervisorView {
            generation: (self.generation + 1) as u64,
            epoch,
            phase: SupervisorPhase::Serving,
        }
    }
}

/// The pauses of a supervisor: after a listener has ended and `n` attempts to bind have failed, the
/// next failure is followed by the pause that belongs to `n`. Nothing else has changed.
pub proof fn law_failed_attempts_lengthen_the_pause(
    supervisor: SupervisorView,
    exit: ListenerExit,
    n: nat,
)
    requires
        !(exit is Shutdown),
    ensures
        supervisor.ended(exit).attempts_failed(n) == (SupervisorView {
            phase: SupervisorPhase::Rebinding { delay_ms: rebind_delay(n) as u64 },
            ..supervisor
        }),
        supervisor.ended(exit).attempts_failed(n).pause() == rebind_delay(n),
    decreases n,
{
    law_rebind_delay_is_bounded(n);
    if n > 0 {
        law_rebind_delay_is_bounded((n - 1) as nat);
        law_failed_attempts_lengthen_the_pause(supervisor, exit, (n - 1) as nat);
    }
}

/// The pauses in milliseconds: 50 at first, twice as long after each failure, and never more than
/// 1000.
pub proof fn law_pauses_double_up_to_a_second(failures: nat)
    ensures
        rebind_delay(0) == 50,
        2 * rebind_delay(failures) <= 1000 ==> rebind_delay(failures + 1) == 2 * rebind_delay(
            failures,
        ),
        2 * rebind_delay(failures) > 1000 ==> rebind_delay(failures + 1) == 1000,
        rebind_delay(failures) <= 1000,
{
    law_rebind_delay_is_bounded(failures);
}

/// What an attempt to bind does to a supervisor: a failed one doubles the pause, up to a second, and
/// changes nothing else; one that succeeds starts the next generation with its own epoch.
pub proof fn law_attempts_to_bind(supervisor: SupervisorView, delay_ms: u64, epoch: Seq<char>)
    requires
        supervisor.phase == (SupervisorPhase::Rebinding { delay_ms }),
        50 <= delay_ms <= 1000,
        supervisor.generation < u64::MAX,
    ensures
        supervisor.pause() == delay_ms,
        supervisor.attempt_failed().generation == supervisor.generation,
        supervisor.attempt_failed().epoch == supervisor.epoch,
        delay_ms <= 500 ==> supervisor.attempt_failed().phase == (SupervisorPhase::Rebinding {
            delay_ms: (delay_ms + delay_ms) as u64,
        }),
        delay_ms > 500 ==> supervisor.attempt_failed().phase == (SupervisorPhase::Rebinding {
            delay_ms: 1000,
        }),
        supervisor.rebound(epoch).generation == supervisor.generation + 1,
        supervisor.rebound(epoch).epoch == epoch,
        supervisor.rebound(epoch).phase == SupervisorPhase::Serving,
{
}

/// How the end of a listener is reported: with its own number and epoch, as the end of the socket
/// exactly if it was asked to end, and else with the reason, in words, for which it was lost.
pub proof fn law_lost_listener_is_reported_with_its_reason(
    supervisor: SupervisorView,
    exit: ListenerExit,
)
    ensures
        supervisor.ended_entry(exit).generation == supervisor.generation,
        supervisor.ended_entry(exit).epoch == supervisor.epoch,
        exit is Shutdown ==> {
            &&& supervisor.ended_entry(exit).event_type == "control_socket_stopped"@
            &&& supervisor.ended_entry(exit).reason is None
            &&& supervisor.ended(exit).phase == SupervisorPhase::Stopped
        },
        !(exit is Shutdown) ==> {
            &&& supervisor.ended_entry(exit).event_type == "control_socket_degraded"@
            &&& supervisor.ended(exit).phase == (SupervisorPhase::Rebinding { delay_ms: 50 })
        },
        exit is PathMissing ==> supervisor.ended_entry(exit).reason == Some(
            "socket path disappeared"@,
        ),
        exit is PathReplaced ==> supervisor.ended_entry(exit).reason == Some(
            "socket path ownership changed"@,
        ),
        exit matches ListenerExit::AcceptFailed(failed) ==> supervisor.ended_entry(exit).reason
            == Some("listener accept failed: "@ + failed.message@),
        supervisor.ended(exit).generation == supervisor.generation,
        supervisor.ended(exit).epoch == supervisor.epoch,
{
}

/// The payload of an entry tells the path, and the number, the epoch and the reason of the entry; a
/// missing reason is null.
pub proof fn law_lifecycle_payload_tells_the_entry(path: Seq<char>, entry: LifecycleView)
    ensures
        ({
            let payload = lifecycle_payload_view(path, entry);
            &&& field(payload, "path"@) == Some(JsonView::Text(path))
            &&& field(payload, "generation"@) == Some(JsonView::Unsigned(entry.generation))
            &&& field(payload, "epoch"@) == Some(JsonView::Text(entry.epoch))
            &&& entry.reason matches Some(reason) ==> field(payload, "reason"@) == Some(
                JsonView::Text(reason),
            )
            &&& entry.reason is None ==> field(payload, "reason"@) == Some(JsonView::Null)
        }),
{
    reveal_strlit("path");
    reveal_strlit("generation");
    reveal_strlit("epoch");
    reveal_strlit("reason");
    reveal_with_fuel(lookup, 5);
    let members = lifecycle_payload_view(path, entry)->Object_0;
    assert("epoch"@.len() == 5 && "reason"@.len() == 6 && "generation"@.len() == 10
        && "path"@.len() == 4);
    assert(members.drop_first() =~= members.subrange(1, 4));
    assert(members.drop_first().drop_first() =~= members.subrange(2, 4));
    assert(members.drop_first().drop_first().drop_first() =~= members.subrange(3, 4));
}

/// How a listener was followed by another: why it ended, how many attempts to bind failed, and the
/// epoch of the next.
#[verifier::ext_equal]
pub struct Recovery {
    pub exit: ListenerExit,
    pub failures: nat,
    pub epoch: Seq<char>,
}

/// The supervisor after a run of recoveries.
pub open spec fn supervisor_after(epoch: Seq<char>, run: Seq<Recovery>) -> SupervisorView
    decreases run.len(),
{
    if run.len() == 0 {
        SupervisorView::started(epoch)
    } else {
        let last = run.last();
        supervisor_after(epoch, run.drop_last()).ended(last.exit).attempts_failed(
            last.failures,
        ).rebound(last.epoch)
    }
}

/// The entries that a run of recoveries leaves, from the first listener on.
pub open spec fn entries_after(epoch: Seq<char>, run: Seq<Recovery>) -> Seq<LifecycleView>
    decreases run.len(),
{
    if run.len() == 0 {
        seq![SupervisorView::started(epoch).entry("control_socket_started"@, None)]
    } else {
        let last = run.last();
        let before = supervisor_after(epoch, run.drop_last());
        entries_after(epoch, run.drop_last()).push(before.ended_entry(last.exit)).push(
            supervisor_after(epoch, run).entry("control_socket_restarted"@, None),
        )
    }
}

/// The entries of a whole life: a run of recoveries, then a shutdown.
pub open spec fn life_entries(epoch: Seq<char>, run: Seq<Recovery>) -> Seq<LifecycleView> {
    entries_after(epoch, run).push(
        supervisor_after(epoch, run).ended_entry(ListenerExit::Shutdown),
    )
}

/// The epoch of a listener of a run, counted from one.
pub open spec fn epoch_of(epoch: Seq<char>, run: Seq<Recovery>, generation: int) -> Seq<char> {
    if generation == 1 {
        epoch
    } else {
        run[generation - 2].epoch
    }
}

proof fn lemma_attempts_keep_the_rest(supervisor: SupervisorView, n: nat)
    ensures
        supervisor.attempts_failed(n).generation == supervisor.generation,
        supervisor.attempts_failed(n).epoch == supervisor.epoch,
    decreases n,
{
    if n > 0 {
        lemma_attempts_keep_the_rest(supervisor, (n - 1) as nat);
    }
}

proof fn lemma_run_counts(epoch: Seq<char>, run: Seq<Recovery>)
    requires
        run.len() < u64::MAX,
    ensures
        supervisor_after(epoch, run) == (SupervisorView {
            generation: (run.len() + 1) as u64,
            epoch: epoch_of(epoch, run, run.len() as int + 1),
            phase: SupervisorPhase::Serving,
        }),
        entries_after(epoch, run).len() == 2 * run.len() + 1,
    decreases run.len(),
{
    if run.len() > 0 {
        lemma_run_counts(epoch, run.drop_last());
        let last = run.last();
        lemma_attempts_keep_the_rest(
            supervisor_after(epoch, run.drop_last()).ended(last.exit),
            last.failures,
        );
    }
}

/// The life of a socket in its log: it starts with its first listener; each listener that is lost is
/// reported with its reason, and the next one with the next number and its own epoch; a shutdown
/// ends it. However many attempts to bind fail in between, they leave no entry.
pub proof fn law_generations_are_logged_in_order(epoch: Seq<char>, run: Seq<Recovery>, i: int)
    requires
        run.len() < u64::MAX,
        forall|k: int| 0 <= k < run.len() ==> !((#[trigger] run[k]).exit is Shutdown),
    ensures
        life_entries(epoch, run).len() == 2 * run.len() + 2,
        life_entries(epoch, run)[0] == (LifecycleView {
            event_type: "control_socket_started"@,
            generation: 1,
            epoch,
            reason: None,
        }),
        1 <= i <= run.len() ==> {
            &&& life_entries(epoch, run)[2 * i - 1] == (LifecycleView {
                event_type: "control_socket_degraded"@,
                generation: i as u64,
                epoch: epoch_of(epoch, run, i),
                reason: degraded_reason(run[i - 1].exit),
            })
            &&& life_entries(epoch, run)[2 * i] == (LifecycleView {
                event_type: "control_socket_restarted"@,
                generation: (i + 1) as u64,
                epoch: epoch_of(epoch, run, i + 1),
                reason: None,
            })
        },
        life_entries(epoch, run)[2 * run.len() as int + 1] == (LifecycleView {
            event_type: "control_socket_stopped"@,
            generation: (run.len() + 1) as u64,
            epoch: epoch_of(epoch, run, run.len() as int + 1),
            reason: None,
        }),
        supervisor_after(epoch, run).ended(ListenerExit::Shutdown).phase
            == SupervisorPhase::Stopped,
    decreases run.len(),
{
    lemma_run_counts(epoch, run);
    if run.len() > 0 {
        let rest = run.drop_last();
        lemma_run_counts(epoch, rest);
        assert forall|k: int| 0 <= k < rest.len() implies !((#[trigger] rest[k]).exit is Shutdown) by {
            assert(rest[k] == run[k]);
        }
        law_generations_are_logged_in_order(epoch, rest, i);
        assert(run.last() == run[run.len() - 1]);
        assert(!(run[run.len() - 1].exit is Shutdown));
        if 1 <= i <= rest.len() {
            assert(rest[i - 1] == run[i - 1]);
            assert(epoch_of(epoch, rest, i) == epoch_of(epoch, run, i));
            assert(epoch_of(epoch, rest, i + 1) == epoch_of(epoch, run, i + 1));
        } else if i == run.len() {
            assert(epoch_of(epoch, rest, i) == epoch_of(epoch, run, i));
        }
    }
}

impl Supervisor {
    /// The pause of a supervisor that is binding again lies within its bounds.
    pub open spec fn wf(self) -> bool {
        self.phase matches SupervisorPhase::Rebinding { delay_ms } ==> PATH_CHECK_INTERVAL_MS
            <= delay_ms <= REBIND_MAX_DELAY_MS
    }

    /// The first listener is at work.
    pub fn start(epoch: String) -> (r: (Supervisor, LifecycleEntry))
        ensures
            r.0.wf(),
            r.0@ == SupervisorView::started(epoch@),
            r.1@ == r.0@.entry("control_socket_started"@, None),
    {
        let entry = LifecycleEntry {
            event_type: "control_socket_started".to_string(),
            generation: 1,
            epoch: epoch.clone(),
            reason: None,
        };
        (Supervisor { generation: 1, epoch, phase: SupervisorPhase::Serving }, entry)
    }

    /// A listener has ended: for good, or to be followed by another.
    pub fn generation_ended(&mut self, exit: ListenerExit) -> (r: LifecycleEntry)
        requires
            old(self).phase == SupervisorPhase::Serving,
        ensures
            final(self).wf(),
            final(self)@ == old(self)@.ended(exit),
            r@ == old(self)@.ended_entry(exit),
    {
        let reason = match exit {
            ListenerExit::Shutdown => {
                self.phase = SupervisorPhase::Stopped;
                return LifecycleEntry {
                    event_type: "control_socket_stopped".to_string(),
                    generation: self.generation,
                    epoch: self.epoch.clone(),
                    reason: None,
                };
            },
            ListenerExit::PathMissing => "socket path disappeared".to_string(),
            ListenerExit::PathReplaced => "socket path ownership changed".to_string(),
            ListenerExit::AcceptFailed(failed) => {
                let mut text = "listener accept failed: ".to_string();
                text.append(failed.message.as_str());
                text
            },
        };
        self.phase = SupervisorPhase::Rebinding { delay_ms: PATH_CHECK_INTERVAL_MS };
        LifecycleEntry {
            event_type: "control_socket_degraded".to_string(),
            generation: self.generation,
            epoch: self.epoch.clone(),
            reason: Some(reason),
        }
    }

    /// An attempt to bind again was made, or given up.
    pub fn rebind(&mut self, event: RebindEvent) -> (r: RebindStep)
        requires
            old(self).wf(),
            old(self).phase is Rebinding,
            old(self).generation < u64::MAX,
        ensures
            final(self).wf(),
            match event {
                RebindEvent::Shutdown => {
                    &&& r is Stop
                    &&& final(self)@ == (SupervisorView {
                        phase: SupervisorPhase::Stopped,
                        ..old(self)@
                    })
                },
                RebindEvent::Bound { epoch } => {
                    &&& final(self)@ == old(self)@.rebound(epoch@)
                    &&& r matches RebindStep::Serve(entry)
                    &&& entry@ == final(self)@.entry("control_socket_restarted"@, None)
                },
                RebindEvent::Failed => {
                    &&& r == RebindStep::Sleep { millis: old(self)@.pause() }
                    &&& final(self)@ == old(self)@.attempt_failed()
                },
            },
    {
        match event {
            RebindEvent::Shutdown => {
                self.phase = SupervisorPhase::Stopped;
                RebindStep::Stop
            },
            RebindEvent::Bound { epoch } => {
                self.generation = self.generation + 1;
                self.epoch = epoch.clone();
                self.phase = SupervisorPhase::Serving;
                RebindStep::Serve(
                    LifecycleEntry {
                        event_type: "control_socket_restarted".to_string(),
                        generation: self.generation,
                        epoch,
                        reason: None,
                    },
                )
            },
            RebindEvent::Failed => {
                let delay_ms: u64 = match self.phase {
                    SupervisorPhase::Rebinding { delay_ms } => delay_ms,
                    _ => PATH_CHECK_INTERVAL_MS,
                };
                let twice: u64 = delay_ms * 2;
                self.phase = SupervisorPhase::Rebinding {
                    delay_ms: if twice <= REBIND_MAX_DELAY_MS {
                        twice
                    } else {
                        REBIND_MAX_DELAY_MS
                    },
                };
                RebindStep::Sleep { millis: delay_ms }
            },
        }
    }
}

} // verus!
