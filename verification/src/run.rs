//! The decisions of a server run: the driver performs each stage's outside
//! work (parsing the bind address, binding, installing the audit layer,
//! serving, draining) and reports how it went; `run_step` says what comes
//! next, what to record, and how the lifecycle changes.

use crate::lifecycle::LifecycleEvent;
use vstd::prelude::*;

verus! {

/// How long a graceful drain may take before the run gives up, in seconds.
pub const DRAIN_TIMEOUT_SECS: u64 = 45;

/// How long readiness is given to propagate after a drain begins, before
/// the drain timer starts, in milliseconds.
pub const READINESS_PROPAGATION_DELAY_MILLIS: u64 = 250;

/// Why a run failed.
#[derive(Clone, Copy, Debug, PartialEq, Eq, Structural)]
pub enum RunError {
    /// The configured bind address is not a socket address.
    InvalidBindAddress,
    /// The listener could not be bound.
    ListenerBind,
    /// The audit middleware could not be installed.
    AuditInstall,
    /// The shutdown coordinator went away before the drain began.
    CoordinatorStopped,
    /// The graceful drain exceeded its deadline.
    DrainTimeout,
    /// The server stopped with an I/O error.
    ServerIo,
}

/// How a run ended.
#[derive(Clone, Copy, Debug, PartialEq, Eq, Structural)]
pub enum RunOutcome {
    Completed,
    Failed(RunError),
}

/// Where a run stands.
#[derive(Clone, Copy, Debug, PartialEq, Eq, Structural)]
pub enum RunStage {
    /// The bind address is being parsed.
    ParseAddress,
    /// The listener is being bound.
    BindListener,
    /// The audit middleware is being installed.
    InstallAudit,
    /// Requests are served until the server exits or a shutdown is requested.
    Serve,
    /// A shutdown was requested: readiness is withdrawn and given time to
    /// propagate while requests are still served.
    DrainRequested,
    /// A drain began; the server is given until the deadline to exit.
    AwaitDrain,
    /// The run is over.
    Stopped(RunOutcome),
}

/// What the driver observed.
#[derive(Clone, Copy, Debug, PartialEq, Eq, Structural)]
pub enum RunEvent {
    /// Parsing the bind address succeeded (`true`) or failed.
    AddressParsed(bool),
    /// Binding the listener succeeded (`true`) or failed.
    ListenerBound(bool),
    /// Installing the audit middleware succeeded (`true`) or failed.
    AuditInstalled(bool),
    /// The server exited cleanly (`true`) or with an I/O error.
    ServerExited(bool),
    /// A shutdown signal arrived.
    ShutdownSignalled,
    /// The drain began (`true`), or its coordinator went away first.
    DrainStarted(bool),
    /// The drain deadline passed before the server exited.
    DrainTimedOut,
}

/// An event the run records.
#[derive(Clone, Copy, Debug, PartialEq, Eq, Structural)]
pub enum Notice {
    BindAddressInvalid,
    ListenerBindFailed,
    ListenerReady,
    GracefulDrainStarted,
    AuditInstallFailed,
    CoordinatorStopped,
    DrainTimeoutExceeded,
    ServerIoError,
    ServerStopped,
}

/// The severity a notice is recorded with.
#[derive(Clone, Copy, Debug, PartialEq, Eq, Structural)]
pub enum LogLevel {
    Info,
    Error,
}

/// The severity of each notice: failures are errors, progress is info.
pub open spec fn notice_level(notice: Notice) -> LogLevel {
    match notice {
        Notice::BindAddressInvalid => LogLevel::Error,
        Notice::ListenerBindFailed => LogLevel::Error,
        Notice::ListenerReady => LogLevel::Info,
        Notice::GracefulDrainStarted => LogLevel::Info,
        Notice::AuditInstallFailed => LogLevel::Error,
        Notice::CoordinatorStopped => LogLevel::Error,
        Notice::DrainTimeoutExceeded => LogLevel::Error,
        Notice::ServerIoError => LogLevel::Error,
        Notice::ServerStopped => LogLevel::Info,
    }
}

/// The fixed text each notice is recorded with; no notice carries a value.
pub open spec fn notice_message(notice: Notice) -> Seq<char> {
    match notice {
        Notice::BindAddressInvalid => "API bind address is invalid"@,
        Notice::ListenerBindFailed => "API listener bind failed"@,
        Notice::ListenerReady => "API listener ready"@,
        Notice::GracefulDrainStarted => "API graceful drain started"@,
        Notice::AuditInstallFailed => "API audit middleware installation failed"@,
        Notice::CoordinatorStopped => "API shutdown coordinator stopped before drain began"@,
        Notice::DrainTimeoutExceeded => "API graceful shutdown exceeded the drain timeout"@,
        Notice::ServerIoError => "API server stopped with an I/O error"@,
        Notice::ServerStopped => "API server stopped"@,
    }
}

/// The trace id each notice is recorded under.
pub open spec fn notice_trace(notice: Notice) -> Seq<char> {
    match notice {
        Notice::BindAddressInvalid => "ores-trace-GqXMMRSXYYPpCf9JTbRBZ"@,
        Notice::ListenerBindFailed => "ores-trace-wMAKrrAZqoE9jzG_8Qp5B"@,
        Notice::ListenerReady => "ores-trace-JWKlCySFMO7dsaacLLxJh"@,
        Notice::GracefulDrainStarted => "ores-trace-BFdDfjyGxkwBwUNrUxoLQ"@,
        Notice::AuditInstallFailed => "ores-trace-FciJqyrWXwKJvjTz1nx38"@,
        Notice::CoordinatorStopped => "ores-trace-aOmrB5XwX4l6R1dcySNoo"@,
        Notice::DrainTimeoutExceeded => "ores-trace-kT-o7VZYe97ln4JNrScQp"@,
        Notice::ServerIoError => "ores-trace-KeZUdPyd91jiSs0l89Re1"@,
        Notice::ServerStopped => "ores-trace-oWB8XmzVPaM-8KTrzCkKE"@,
    }
}

/// The routine id under which the run records its notices.
pub const RUN_ROUTINE_ID: &'static str = "ores-routine-YJpeIzXOSzjKcaxWiVs3p";

impl Notice {
    /// The severity this notice is recorded with.
    pub fn level(&self) -> (level: LogLevel)
        ensures
            level == notice_level(*self),
    {
        match self {
            Notice::BindAddressInvalid => LogLevel::Error,
            Notice::ListenerBindFailed => LogLevel::Error,
            Notice::ListenerReady => LogLevel::Info,
            Notice::GracefulDrainStarted => LogLevel::Info,
            Notice::AuditInstallFailed => LogLevel::Error,
            Notice::CoordinatorStopped => LogLevel::Error,
            Notice::DrainTimeoutExceeded => LogLevel::Error,
            Notice::ServerIoError => LogLevel::Error,
            Notice::ServerStopped => LogLevel::Info,
        }
    }

    /// The text this notice is recorded with.
    pub fn message(&self) -> (message: &'static str)
        ensures
            message@ == notice_message(*self),
    {
        match self {
            Notice::BindAddressInvalid => "API bind address is invalid",
            Notice::ListenerBindFailed => "API listener bind failed",
            Notice::ListenerReady => "API listener ready",
            Notice::GracefulDrainStarted => "API graceful drain started",
            Notice::AuditInstallFailed => "API audit middleware installation failed",
            Notice::CoordinatorStopped => "API shutdown coordinator stopped before drain began",
            Notice::DrainTimeoutExceeded => "API graceful shutdown exceeded the drain timeout",
            Notice::ServerIoError => "API server stopped with an I/O error",
            Notice::ServerStopped => "API server stopped",
        }
    }

    /// The trace id this notice is recorded under.
    pub fn trace_id(&self) -> (trace: &'static str)
        ensures
            trace@ == notice_trace(*self),
    {
        match self {
            Notice::BindAddressInvalid => "ores-trace-GqXMMRSXYYPpCf9JTbRBZ",
            Notice::ListenerBindFailed => "ores-trace-wMAKrrAZqoE9jzG_8Qp5B",
            Notice::ListenerReady => "ores-trace-JWKlCySFMO7dsaacLLxJh",
            Notice::GracefulDrainStarted => "ores-trace-BFdDfjyGxkwBwUNrUxoLQ",
            Notice::AuditInstallFailed => "ores-trace-FciJqyrWXwKJvjTz1nx38",
            Notice::CoordinatorStopped => "ores-trace-aOmrB5XwX4l6R1dcySNoo",
            Notice::DrainTimeoutExceeded => "ores-trace-kT-o7VZYe97ln4JNrScQp",
            Notice::ServerIoError => "ores-trace-KeZUdPyd91jiSs0l89Re1",
            Notice::ServerStopped => "ores-trace-oWB8XmzVPaM-8KTrzCkKE",
        }
    }
}

/// Every notice that ends a run in failure, or reports one, is an error;
/// progress and a clean stop are info.
pub proof fn lemma_failures_are_errors(stage: RunStage, event: RunEvent, i: int)
    requires
        0 <= i < transition(stage, event).notices.len(),
    ensures
        transition(stage, event).stage is Stopped && transition(stage, event).stage
            != RunStage::Stopped(RunOutcome::Completed) && !(stage is Stopped) ==> notice_level(
            transition(stage, event).notices[i],
        ) == LogLevel::Error,
        transition(stage, event).stage == RunStage::Stopped(RunOutcome::Completed) ==> notice_level(
            transition(stage, event).notices[i],
        ) == LogLevel::Info,
        !(transition(stage, event).stage is Stopped) ==> notice_level(
            transition(stage, event).notices[i],
        ) == LogLevel::Info,
{
}

/// The result of one decision, as a mathematical value.
pub struct StepView {
    pub stage: RunStage,
    pub notices: Seq<Notice>,
    pub lifecycle: Option<LifecycleEvent>,
}

/// The end of a run whose server exited, cleanly or not.
pub open spec fn server_exit(clean: bool) -> StepView {
    if clean {
        StepView {
            stage: RunStage::Stopped(RunOutcome::Completed),
            notices: seq![Notice::ServerStopped],
            lifecycle: None,
        }
    } else {
        StepView {
            stage: RunStage::Stopped(RunOutcome::Failed(RunError::ServerIo)),
            notices: seq![Notice::ServerIoError],
            lifecycle: None,
        }
    }
}

/// A run that stops with `error`, recording `notices`.
pub open spec fn fail(error: RunError, notices: Seq<Notice>) -> StepView {
    StepView { stage: RunStage::Stopped(RunOutcome::Failed(error)), notices, lifecycle: None }
}

/// A run that moves on to `stage`.
pub open spec fn advance(stage: RunStage) -> StepView {
    StepView { stage, notices: seq![], lifecycle: None }
}

/// What follows `event` at `stage`. An event that does not belong to the
/// stage changes nothing.
pub open spec fn transition(stage: RunStage, event: RunEvent) -> StepView {
    match (stage, event) {
        (RunStage::ParseAddress, RunEvent::AddressParsed(ok)) => if ok {
            advance(RunStage::BindListener)
        } else {
            fail(RunError::InvalidBindAddress, seq![Notice::BindAddressInvalid])
        },
        (RunStage::BindListener, RunEvent::ListenerBound(ok)) => if ok {
            StepView {
                stage: RunStage::InstallAudit,
                notices: seq![Notice::ListenerReady],
                lifecycle: Some(LifecycleEvent::Started),
            }
        } else {
            fail(RunError::ListenerBind, seq![Notice::ListenerBindFailed])
        },
        (RunStage::InstallAudit, RunEvent::AuditInstalled(ok)) => if ok {
            advance(RunStage::Serve)
        } else {
            fail(RunError::AuditInstall, seq![Notice::AuditInstallFailed])
        },
        (RunStage::Serve, RunEvent::ServerExited(clean)) => server_exit(clean),
        (RunStage::Serve, RunEvent::ShutdownSignalled) => StepView {
            stage: RunStage::DrainRequested,
            notices: seq![Notice::GracefulDrainStarted],
            lifecycle: Some(LifecycleEvent::DrainBegun),
        },
        (RunStage::Serve, RunEvent::DrainStarted(false)) => fail(
            RunError::CoordinatorStopped,
            seq![Notice::CoordinatorStopped, Notice::ServerIoError],
        ),
        (RunStage::DrainRequested, RunEvent::ServerExited(clean)) => server_exit(clean),
        (RunStage::DrainRequested, RunEvent::DrainStarted(began)) => if began {
            advance(RunStage::AwaitDrain)
        } else {
            fail(
                RunError::CoordinatorStopped,
                seq![Notice::CoordinatorStopped, Notice::ServerIoError],
            )
        },
        (RunStage::AwaitDrain, RunEvent::ServerExited(clean)) => server_exit(clean),
        (RunStage::AwaitDrain, RunEvent::DrainTimedOut) => fail(
            RunError::DrainTimeout,
            seq![Notice::DrainTimeoutExceeded, Notice::ServerIoError],
        ),
        _ => StepView { stage, notices: seq![], lifecycle: None },
    }
}

/// One decision of a run.
pub struct RunStep {
    pub stage: RunStage,
    pub notices: Vec<Notice>,
    pub lifecycle: Option<LifecycleEvent>,
}

impl View for RunStep {
    type V = StepView;

    open spec fn view(&self) -> StepView {
        StepView { stage: self.stage, notices: self.notices@, lifecycle: self.lifecycle }
    }
}

/// A step with no notice and no lifecycle change.
fn plain_step(stage: RunStage) -> (step: RunStep)
    ensures
        step@ == advance(stage),
{
    let step = RunStep { stage, notices: Vec::new(), lifecycle: None };
    assert(step@.notices =~= seq![]);
    step
}

/// A step that stops the run with `error`, recording the given notices.
fn failed_step(error: RunError, notices: Vec<Notice>) -> (step: RunStep)
    ensures
        step@ == fail(error, notices@),
{
    RunStep { stage: RunStage::Stopped(RunOutcome::Failed(error)), notices, lifecycle: None }
}

/// The end of a run whose server exited.
fn exit_step(clean: bool) -> (step: RunStep)
    ensures
        step@ == server_exit(clean),
{
    if clean {
        let step = RunStep {
            stage: RunStage::Stopped(RunOutcome::Completed),
            notices: vec![Notice::ServerStopped],
            lifecycle: None,
        };
        assert(step@.notices =~= seq![Notice::ServerStopped]);
        step
    } else {
        let step = RunStep {
            stage: RunStage::Stopped(RunOutcome::Failed(RunError::ServerIo)),
            notices: vec![Notice::ServerIoError],
            lifecycle: None,
        };
        assert(step@.notices =~= seq![Notice::ServerIoError]);
        step
    }
}

/// The end of a run whose shutdown coordinator went away before the drain.
fn coordinator_lost_step() -> (step: RunStep)
    ensures
        step@ == fail(
            RunError::CoordinatorStopped,
            seq![Notice::CoordinatorStopped, Notice::ServerIoError],
        ),
{
    let notices = vec![Notice::CoordinatorStopped, Notice::ServerIoError];
    assert(notices@ =~= seq![Notice::CoordinatorStopped, Notice::ServerIoError]);
    failed_step(RunError::CoordinatorStopped, notices)
}

/// Decides what follows `event` at `stage`.
pub fn run_step(stage: RunStage, event: RunEvent) -> (step: RunStep)
    ensures
        step@ == transition(stage, event),
{
    match (stage, event) {
        (RunStage::ParseAddress, RunEvent::AddressParsed(ok)) => {
            if ok {
                plain_step(RunStage::BindListener)
            } else {
                let notices = vec![Notice::BindAddressInvalid];
                assert(notices@ =~= seq![Notice::BindAddressInvalid]);
                failed_step(RunError::InvalidBindAddress, notices)
            }
        },
        (RunStage::BindListener, RunEvent::ListenerBound(ok)) => {
            if ok {
                let step = RunStep {
                    stage: RunStage::InstallAudit,
                    notices: vec![Notice::ListenerReady],
                    lifecycle: Some(LifecycleEvent::Started),
                };
                assert(step@.notices =~= seq![Notice::ListenerReady]);
                step
            } else {
                let notices = vec![Notice::ListenerBindFailed];
                assert(notices@ =~= seq![Notice::ListenerBindFailed]);
                failed_step(RunError::ListenerBind, notices)
            }
        },
        (RunStage::InstallAudit, RunEvent::AuditInstalled(ok)) => {
            if ok {
                plain_step(RunStage::Serve)
            } else {
                let notices = vec![Notice::AuditInstallFailed];
                assert(notices@ =~= seq![Notice::AuditInstallFailed]);
                failed_step(RunError::AuditInstall, notices)
            }
        },
        (RunStage::Serve, RunEvent::ServerExited(clean)) => exit_step(clean),
        (RunStage::Serve, RunEvent::ShutdownSignalled) => {
            let step = RunStep {
                stage: RunStage::DrainRequested,
                notices: vec![Notice::GracefulDrainStarted],
                lifecycle: Some(LifecycleEvent::DrainBegun),
            };
            assert(step@.notices =~= seq![Notice::GracefulDrainStarted]);
            step
        },
        (RunStage::Serve, RunEvent::DrainStarted(false)) => coordinator_lost_step(),
        (RunStage::DrainRequested, RunEvent::ServerExited(clean)) => exit_step(clean),
        (RunStage::DrainRequested, RunEvent::DrainStarted(began)) => {
            if began {
                plain_step(RunStage::AwaitDrain)
            } else {
                coordinator_lost_step()
            }
        },
        (RunStage::AwaitDrain, RunEvent::ServerExited(clean)) => exit_step(clean),
        (RunStage::AwaitDrain, RunEvent::DrainTimedOut) => {
            let notices = vec![Notice::DrainTimeoutExceeded, Notice::ServerIoError];
            assert(notices@ =~= seq![Notice::DrainTimeoutExceeded, Notice::ServerIoError]);
            failed_step(RunError::DrainTimeout, notices)
        },
        _ => plain_step(stage),
    }
}

/// The stage a run reaches from `stage` after each of `events`, in order.
pub open spec fn run_events(stage: RunStage, events: Seq<RunEvent>) -> RunStage
    decreases events.len(),
{
    if events.len() == 0 {
        stage
    } else {
        run_events(transition(stage, events[0]).stage, events.drop_first())
    }
}

/// The successes a run still needs, from `stage`, before it can complete.
pub open spec fn completion_needs(stage: RunStage, events: Seq<RunEvent>) -> bool {
    &&& stage == RunStage::ParseAddress ==> events.contains(RunEvent::AddressParsed(true))
    &&& (stage == RunStage::ParseAddress || stage == RunStage::BindListener) ==> events.contains(
        RunEvent::ListenerBound(true),
    )
    &&& (stage == RunStage::ParseAddress || stage == RunStage::BindListener || stage
        == RunStage::InstallAudit) ==> events.contains(RunEvent::AuditInstalled(true))
    &&& !(stage is Stopped) ==> events.contains(RunEvent::ServerExited(true))
}

/// A stopped run stays stopped, with the same outcome, and records nothing
/// more.
pub proof fn lemma_stopped_is_final(outcome: RunOutcome, events: Seq<RunEvent>)
    ensures
        run_events(RunStage::Stopped(outcome), events) == RunStage::Stopped(outcome),
        events.len() > 0 ==> transition(RunStage::Stopped(outcome), events[0]).notices.len() == 0,
        events.len() > 0 ==> transition(RunStage::Stopped(outcome), events[0]).lifecycle is None,
    decreases events.len(),
{
    if events.len() > 0 {
        lemma_stopped_is_final(outcome, events.drop_first());
    }
}

proof fn lemma_contains_rest(events: Seq<RunEvent>, e: RunEvent)
    requires
        events.len() > 0,
        events.drop_first().contains(e),
    ensures
        events.contains(e),
{
    let i = choose|i: int| 0 <= i < events.drop_first().len() && events.drop_first()[i] == e;
    assert(events[i + 1] == e);
}

/// A run that completes has parsed its address, bound its listener,
/// installed the audit middleware and seen its server exit cleanly; no
/// failure, lost coordinator or drain timeout lets it report success.
pub proof fn lemma_completion_needs_every_stage(stage: RunStage, events: Seq<RunEvent>)
    requires
        !(stage is Stopped),
        run_events(stage, events) == RunStage::Stopped(RunOutcome::Completed),
    ensures
        completion_needs(stage, events),
    decreases events.len(),
{
    let e = events[0];
    let rest = events.drop_first();
    assert(events[0] == e);
    let next = transition(stage, e).stage;
    match next {
        RunStage::Stopped(outcome) => {
            lemma_stopped_is_final(outcome, rest);
        },
        _ => {
            lemma_completion_needs_every_stage(next, rest);
            let needed = seq![
                RunEvent::AddressParsed(true),
                RunEvent::ListenerBound(true),
                RunEvent::AuditInstalled(true),
                RunEvent::ServerExited(true),
            ];
            assert forall|i: int| 0 <= i < 4 && rest.contains(#[trigger] needed[i]) implies events.contains(
                needed[i],
            ) by {
                lemma_contains_rest(events, needed[i]);
            }
            assert(needed[0] == RunEvent::AddressParsed(true));
            assert(needed[1] == RunEvent::ListenerBound(true));
            assert(needed[2] == RunEvent::AuditInstalled(true));
            assert(needed[3] == RunEvent::ServerExited(true));
        },
    }
}

/// The stages from which a drain has yet to be requested.
pub open spec fn before_drain(stage: RunStage) -> bool {
    stage == RunStage::ParseAddress || stage == RunStage::BindListener || stage
        == RunStage::InstallAudit || stage == RunStage::Serve
}

/// A run that fails on the drain deadline received a shutdown signal
/// first: the drain timer only ever runs after readiness was withdrawn.
pub proof fn lemma_drain_timeout_needs_signal(stage: RunStage, events: Seq<RunEvent>)
    requires
        before_drain(stage),
        run_events(stage, events) == RunStage::Stopped(RunOutcome::Failed(RunError::DrainTimeout)),
    ensures
        events.contains(RunEvent::ShutdownSignalled),
    decreases events.len(),
{
    let e = events[0];
    let rest = events.drop_first();
    let next = transition(stage, e).stage;
    if e == RunEvent::ShutdownSignalled {
        assert(events[0] == RunEvent::ShutdownSignalled);
    } else {
        match next {
            RunStage::Stopped(outcome) => {
                lemma_stopped_is_final(outcome, rest);
            },
            _ => {
                lemma_drain_timeout_needs_signal(next, rest);
                lemma_contains_rest(events, RunEvent::ShutdownSignalled);
            },
        }
    }
}

/// Startup is recorded exactly when the listener has been bound, and the
/// drain begins (readiness withdrawn, drain start recorded) exactly when a
/// shutdown signal arrives while serving; a stop is
/// never silent; a drain timeout can only follow a begun drain; and every
/// failure after serving began is recorded as a server I/O error last.
pub proof fn lemma_step_properties(stage: RunStage, event: RunEvent)
    ensures
        transition(stage, event).lifecycle == Some(LifecycleEvent::Started) <==> (stage
            == RunStage::BindListener && event == RunEvent::ListenerBound(true)),
        transition(stage, event).lifecycle == Some(LifecycleEvent::DrainBegun) <==> (stage
            == RunStage::Serve && event == RunEvent::ShutdownSignalled),
        transition(stage, event).lifecycle == Some(LifecycleEvent::DrainBegun) ==> transition(
            stage,
            event,
        ).notices == seq![Notice::GracefulDrainStarted],
        !(stage is Stopped) && transition(stage, event).stage is Stopped ==> transition(
            stage,
            event,
        ).notices.len() > 0,
        transition(stage, event).stage == RunStage::Stopped(
            RunOutcome::Failed(RunError::DrainTimeout),
        ) && !(stage is Stopped) ==> stage == RunStage::AwaitDrain,
        (stage == RunStage::Serve || stage == RunStage::DrainRequested || stage
            == RunStage::AwaitDrain) && transition(
            stage,
            event,
        ).stage is Stopped && transition(stage, event).stage != RunStage::Stopped(
            RunOutcome::Completed,
        ) ==> transition(stage, event).notices.last() == Notice::ServerIoError,
        transition(stage, event).stage == RunStage::Stopped(RunOutcome::Completed) && !(stage is Stopped)
            ==> transition(stage, event).notices == seq![Notice::ServerStopped],
{
}

/// The stages at which the server is running (before or during a drain).
pub open spec fn serving(stage: RunStage) -> bool {
    stage == RunStage::Serve || stage == RunStage::DrainRequested || stage == RunStage::AwaitDrain
}

/// Each way a run can end is caused by exactly one kind of observation: a
/// run fails on the drain deadline only when the deadline passed during a
/// begun drain, fails with a server I/O error only when the server exited
/// with one, completes only on a clean exit, and each earlier failure only
/// when its own stage failed.
pub proof fn lemma_outcome_names_its_cause(stage: RunStage, event: RunEvent)
    requires
        !(stage is Stopped),
    ensures
        transition(stage, event).stage == RunStage::Stopped(
            RunOutcome::Failed(RunError::DrainTimeout),
        ) <==> (stage == RunStage::AwaitDrain && event == RunEvent::DrainTimedOut),
        transition(stage, event).stage == RunStage::Stopped(RunOutcome::Failed(RunError::ServerIo))
            <==> (serving(stage) && event == RunEvent::ServerExited(false)),
        transition(stage, event).stage == RunStage::Stopped(RunOutcome::Completed) <==> (serving(
            stage,
        ) && event == RunEvent::ServerExited(true)),
        transition(stage, event).stage == RunStage::Stopped(
            RunOutcome::Failed(RunError::CoordinatorStopped),
        ) <==> ((stage == RunStage::Serve || stage == RunStage::DrainRequested) && event
            == RunEvent::DrainStarted(false)),
        transition(stage, event).stage == RunStage::Stopped(
            RunOutcome::Failed(RunError::InvalidBindAddress),
        ) <==> (stage == RunStage::ParseAddress && event == RunEvent::AddressParsed(false)),
        transition(stage, event).stage == RunStage::Stopped(
            RunOutcome::Failed(RunError::ListenerBind),
        ) <==> (stage == RunStage::BindListener && event == RunEvent::ListenerBound(false)),
        transition(stage, event).stage == RunStage::Stopped(
            RunOutcome::Failed(RunError::AuditInstall),
        ) <==> (stage == RunStage::InstallAudit && event == RunEvent::AuditInstalled(false)),
{
}

/// What each exit of the server means for the run: at any serving or
/// draining stage, an exit with an I/O error stops the run with a server
/// I/O error and records only that, and a clean exit completes the run and
/// records only the stop; the drain deadline stops it with a timeout and
/// records the timeout before the I/O error.
pub proof fn lemma_server_exits(stage: RunStage)
    requires
        serving(stage),
    ensures
        transition(stage, RunEvent::ServerExited(false)).stage == RunStage::Stopped(
            RunOutcome::Failed(RunError::ServerIo),
        ),
        transition(stage, RunEvent::ServerExited(false)).notices == seq![Notice::ServerIoError],
        transition(stage, RunEvent::ServerExited(false)).lifecycle is None,
        transition(stage, RunEvent::ServerExited(true)).stage == RunStage::Stopped(
            RunOutcome::Completed,
        ),
        transition(stage, RunEvent::ServerExited(true)).notices == seq![Notice::ServerStopped],
        transition(stage, RunEvent::ServerExited(true)).lifecycle is None,
        stage == RunStage::AwaitDrain ==> transition(stage, RunEvent::DrainTimedOut).notices
            == seq![Notice::DrainTimeoutExceeded, Notice::ServerIoError],
{
}

} // verus!
