//! The executable reconciliation engine.
//!
//! A driver creates the engine, performs the action it awaits, reports the
//! outcome with [`ReconciliationEngine::step`], performs the action that comes
//! back, and so on until the action is `Exit`.

use vstd::prelude::*;
use crate::config::Config;
use crate::laws::law_well_formedness_is_kept;
use crate::model::{
    drifted, first_start, go_on, next, next_crash_recovered, next_draining, next_reloading,
    next_running, next_starting, restart, tick_over, EngineView, Outcome, EXIT_CLEAN, EXIT_FATAL,
    SETTLE_SECS,
};
use crate::protocol::{Action, Event, EventView, Notice, SupervisionState};

verus! {

/// The state machine that decides, event by event, what the supervisor does.
#[derive(Debug)]
pub struct ReconciliationEngine {
    interval: u64,
    has_start: bool,
    has_stop: bool,
    state: SupervisionState,
    awaiting: Action,
    local_head: String,
}

/// What the engine answers to an event that it accepted.
#[derive(Debug)]
pub struct Step {
    /// What the driver performs next.
    pub action: Action,
    /// What the driver shows to the operator, in order.
    pub notices: Vec<Notice>,
}

/// The engine's answer to an event that is no outcome of the action it awaits.
#[derive(Clone, Copy, Debug, PartialEq, Eq, Structural)]
pub struct OutOfTurn {
    /// The action whose outcome the engine still awaits.
    pub awaiting: Action,
}

impl View for ReconciliationEngine {
    type V = EngineView;

    closed spec fn view(&self) -> EngineView {
        EngineView {
            interval: self.interval,
            has_start: self.has_start,
            has_stop: self.has_stop,
            state: self.state,
            awaiting: self.awaiting,
            local_head: self.local_head@,
        }
    }
}

/// Whether `r` and the engine `after` are the answer of the engine `before`
/// to `e` under the transition function `f`.
spec fn answers_by(
    f: spec_fn(EngineView, EventView) -> Option<Outcome>,
    before: EngineView,
    e: EventView,
    after: EngineView,
    r: Result<Step, OutOfTurn>,
) -> bool {
    match f(before, e) {
        Some(outcome) => {
            &&& r is Ok
            &&& after == outcome.engine
            &&& r->Ok_0.action == outcome.engine.awaiting
            &&& r->Ok_0.notices@ =~= outcome.notices
        },
        None => {
            &&& r == Err::<Step, OutOfTurn>(OutOfTurn { awaiting: before.awaiting })
            &&& after == before
        },
    }
}

/// Whether `step` is what `outcome` asks for.
spec fn delivers(step: Step, outcome: Outcome) -> bool {
    step.action == outcome.engine.awaiting && step.notices@ =~= outcome.notices
}

impl ReconciliationEngine {
    /// The engine at startup: it awaits the outcome of the initial clone.
    pub fn new(config: &Config) -> (engine: ReconciliationEngine)
        ensures
            engine@ == EngineView::initial(
                config.interval,
                config.start_command is Some,
                config.stop_command is Some,
            ),
            engine@.wf(),
    {
        ReconciliationEngine {
            interval: config.interval,
            has_start: config.start_command.is_some(),
            has_stop: config.stop_command.is_some(),
            state: SupervisionState::Starting,
            awaiting: Action::EnsureClone,
            local_head: String::new(),
        }
    }

    /// The phase of supervision.
    pub fn state(&self) -> (state: SupervisionState)
        ensures
            state == self@.state,
    {
        self.state
    }

    /// The action whose outcome the engine awaits. For a new engine this is
    /// the first thing to do.
    pub fn awaiting(&self) -> (action: Action)
        ensures
            action == self@.awaiting,
    {
        self.awaiting
    }

    /// The local head read in this tick. It is empty unless the engine awaits
    /// the remote head.
    pub fn local_head(&self) -> (hash: &str)
        ensures
            hash@ == self@.local_head,
    {
        self.local_head.as_str()
    }

    /// Whether the engine has reached its end.
    pub fn is_stopped(&self) -> (stopped: bool)
        ensures
            stopped == (self@.state == SupervisionState::Stopped),
    {
        self.state == SupervisionState::Stopped
    }

    fn go(&mut self, state: SupervisionState, awaiting: Action, notices: Vec<Notice>) -> (step:
        Step)
        ensures
            final(self)@ == old(self)@.moved(state, awaiting),
            delivers(step, go_on(old(self)@, state, awaiting, notices@)),
    {
        self.state = state;
        self.awaiting = awaiting;
        self.local_head = String::new();
        Step { action: awaiting, notices }
    }

    fn finish_tick(&mut self, notices: Vec<Notice>) -> (step: Step)
        ensures
            final(self)@ == old(self)@.idle(),
            delivers(step, tick_over(old(self)@, notices@)),
    {
        let secs = self.interval;
        self.go(SupervisionState::Running, Action::AwaitTick { secs }, notices)
    }

    fn halt(&mut self, code: i32, notices: Vec<Notice>) -> (step: Step)
        ensures
            final(self)@ == old(self)@.halted(code),
            step.action == (Action::Exit { code }),
            step.notices@ == notices@,
    {
        self.go(SupervisionState::Stopped, Action::Exit { code }, notices)
    }

    fn fetch(&mut self, local: String, notices: Vec<Notice>) -> (step: Step)
        ensures
            final(self)@ == old(self)@.fetching(local@),
            step.action == Action::FetchRemoteHead,
            step.notices@ == notices@,
    {
        self.awaiting = Action::FetchRemoteHead;
        self.local_head = local;
        Step { action: Action::FetchRemoteHead, notices }
    }

    fn begin(&mut self, notice: Notice) -> (step: Step)
        ensures
            final(self)@ == first_start(old(self)@, seq![notice]).engine,
            delivers(step, first_start(old(self)@, seq![notice])),
    {
        let mut notices = vec![notice];
        if self.has_start {
            self.go(SupervisionState::Starting, Action::StartProcess, notices)
        } else {
            notices.push(Notice::NoStartCommand);
            self.halt(EXIT_FATAL, notices)
        }
    }

    fn revive(&mut self, notice: Notice) -> (step: Step)
        ensures
            final(self)@ == restart(old(self)@, seq![notice]).engine,
            delivers(step, restart(old(self)@, seq![notice])),
    {
        let mut notices = vec![notice];
        if self.has_start {
            self.go(SupervisionState::CrashRecovered, Action::StartProcess, notices)
        } else {
            notices.push(Notice::CannotRestart);
            self.finish_tick(notices)
        }
    }

    fn refuse(&self) -> (r: Result<Step, OutOfTurn>)
        ensures
            r == Err::<Step, OutOfTurn>(OutOfTurn { awaiting: self@.awaiting }),
    {
        Err(OutOfTurn { awaiting: self.awaiting })
    }

    fn step_starting(&mut self, event: Event) -> (r: Result<Step, OutOfTurn>)
        ensures
            answers_by(|s, e| next_starting(s, e), old(self)@, event@, final(self)@, r),
    {
        match (self.awaiting, event) {
            (Action::EnsureClone, Event::Cloned) => Ok(self.begin(Notice::RepositoryPrepared)),
            (Action::EnsureClone, Event::CloneFailed) => Ok(
                self.begin(Notice::InitialCloneFailed),
            ),
            (Action::StartProcess, Event::Started) => Ok(
                self.finish_tick(vec![Notice::ProcessStarted]),
            ),
            (Action::StartProcess, Event::StartFailed) => Ok(
                self.halt(EXIT_FATAL, vec![Notice::InitialStartFailed]),
            ),
            _ => self.refuse(),
        }
    }
    fn step_running(&mut self, event: Event) -> (r: Result<Step, OutOfTurn>)
        ensures
            answers_by(|s, e| next_running(s, e), old(self)@, event@, final(self)@, r),
    {
        match (self.awaiting, event) {
            (Action::AwaitTick { .. }, Event::TickDue) => Ok(
                self.go(SupervisionState::Running, Action::PollProcess, vec![]),
            ),
            (Action::AwaitTick { .. }, Event::ShutdownRequested) => Ok(
                self.go(
                    SupervisionState::Draining,
                    Action::KillProcess,
                    vec![Notice::ShuttingDown],
                ),
            ),
            (Action::PollProcess, Event::Alive) => Ok(
                self.go(SupervisionState::Running, Action::ReadLocalHead, vec![]),
            ),
            (Action::PollProcess, Event::Exited(code)) => Ok(
                self.go(
                    SupervisionState::CrashRecovered,
                    Action::ReadLocalHead,
                    vec![Notice::ProcessExited { code }],
                ),
            ),
            (Action::PollProcess, Event::LivenessUnknown) => Ok(
                self.finish_tick(vec![Notice::LivenessUnknown]),
            ),
            (Action::ReadLocalHead, Event::CheckoutMissing) => Ok(
                self.go(
                    SupervisionState::Running,
                    Action::EnsureClone,
                    vec![Notice::CheckoutMissing],
                ),
            ),
            (Action::ReadLocalHead, Event::LocalHead(local)) => Ok(self.fetch(local, vec![])),
            (Action::ReadLocalHead, Event::LocalHeadUnreadable) => Ok(
                self.fetch(String::new(), vec![Notice::LocalHeadUnreadable]),
            ),
            (Action::EnsureClone, Event::Cloned) => Ok(
                self.finish_tick(vec![Notice::RepositoryRecloned]),
            ),
            (Action::EnsureClone, Event::CloneFailed) => Ok(
                self.finish_tick(vec![Notice::RetryCloneFailed]),
            ),
            (Action::FetchRemoteHead, Event::RemoteFailed) => Ok(
                self.finish_tick(vec![Notice::RemoteQueryFailed]),
            ),
            (Action::FetchRemoteHead, Event::RemoteHead(remote)) => {
                if has_drifted(&self.local_head, &remote) {
                    let stop = if self.has_stop {
                        Action::RunStopCommand
                    } else {
                        Action::KillProcess
                    };
                    Ok(self.go(SupervisionState::Reloading, stop, vec![Notice::ChangeDetected]))
                } else if remote.as_str().is_empty() || self.local_head.as_str().is_empty() {
                    Ok(self.finish_tick(vec![Notice::SkippedInvalidHashes]))
                } else {
                    Ok(self.finish_tick(vec![Notice::NoChanges]))
                }
            },
            _ => self.refuse(),
        }
    }

    fn step_crash_recovered(&mut self, event: Event) -> (r: Result<Step, OutOfTurn>)
        ensures
            answers_by(|s, e| next_crash_recovered(s, e), old(self)@, event@, final(self)@, r),
    {
        match (self.awaiting, event) {
            (Action::ReadLocalHead, Event::CheckoutMissing) => Ok(
                self.revive(Notice::CrashCheckoutUnreadable),
            ),
            (Action::ReadLocalHead, Event::LocalHead(local)) => Ok(self.fetch(local, vec![])),
            (Action::ReadLocalHead, Event::LocalHeadUnreadable) => Ok(
                self.fetch(String::new(), vec![Notice::LocalHeadUnreadable]),
            ),
            (Action::FetchRemoteHead, Event::RemoteFailed) => Ok(
                self.revive(Notice::RemoteQueryFailed),
            ),
            (Action::FetchRemoteHead, Event::RemoteHead(remote)) => {
                if has_drifted(&self.local_head, &remote) {
                    Ok(
                        self.go(
                            SupervisionState::CrashRecovered,
                            Action::RemoveCheckout,
                            vec![Notice::UpdateAvailable],
                        ),
                    )
                } else {
                    Ok(self.revive(Notice::NoNewCommits))
                }
            },
            (Action::RemoveCheckout, Event::Removed) => Ok(
                self.go(SupervisionState::CrashRecovered, Action::EnsureClone, vec![]),
            ),
            (Action::RemoveCheckout, Event::RemoveFailed) => Ok(
                self.revive(Notice::CleanupFailed),
            ),
            (Action::EnsureClone, Event::Cloned) => Ok(self.revive(Notice::RepositoryUpdated)),
            (Action::EnsureClone, Event::CloneFailed) => Ok(self.revive(Notice::RecloneFailed)),
            (Action::StartProcess, Event::Started) => Ok(
                self.finish_tick(vec![Notice::Restarted]),
            ),
            (Action::StartProcess, Event::StartFailed) => Ok(
                self.finish_tick(vec![Notice::RestartFailed]),
            ),
            _ => self.refuse(),
        }
    }

    fn step_reloading(&mut self, event: Event) -> (r: Result<Step, OutOfTurn>)
        ensures
            answers_by(|s, e| next_reloading(s, e), old(self)@, event@, final(self)@, r),
    {
        match (self.awaiting, event) {
            (Action::RunStopCommand, Event::StopCommandDone) => Ok(
                self.go(SupervisionState::Reloading, Action::Settle { secs: SETTLE_SECS }, vec![]),
            ),
            (Action::RunStopCommand, Event::StopCommandFailed) => Ok(
                self.finish_tick(vec![Notice::StopCommandFailed]),
            ),
            (Action::Settle { .. }, Event::Settled) => Ok(
                self.go(
                    SupervisionState::Reloading,
                    Action::RemoveCheckout,
                    vec![Notice::RemovingCheckout],
                ),
            ),
            (Action::KillProcess, Event::Killed) => Ok(
                self.go(
                    SupervisionState::Reloading,
                    Action::RemoveCheckout,
                    vec![Notice::RemovingCheckout],
                ),
            ),
            (Action::RemoveCheckout, Event::Removed) => Ok(
                self.go(SupervisionState::Reloading, Action::EnsureClone, vec![]),
            ),
            (Action::RemoveCheckout, Event::RemoveFailed) => Ok(
                self.finish_tick(vec![Notice::CleanupFailed]),
            ),
            (Action::EnsureClone, Event::Cloned) => {
                if self.has_start {
                    Ok(self.go(SupervisionState::Reloading, Action::StartProcess, vec![]))
                } else {
                    Ok(self.finish_tick(vec![Notice::Reloaded]))
                }
            },
            (Action::EnsureClone, Event::CloneFailed) => Ok(
                self.finish_tick(vec![Notice::RecloneFailed]),
            ),
            (Action::StartProcess, Event::Started) => Ok(self.finish_tick(vec![Notice::Reloaded])),
            (Action::StartProcess, Event::StartFailed) => Ok(
                self.finish_tick(vec![Notice::RestartFailed]),
            ),
            _ => self.refuse(),
        }
    }

    fn step_draining(&mut self, event: Event) -> (r: Result<Step, OutOfTurn>)
        ensures
            answers_by(|s, e| next_draining(s, e), old(self)@, event@, final(self)@, r),
    {
        match (self.awaiting, event) {
            (Action::KillProcess, Event::Killed) => Ok(
                self.halt(EXIT_CLEAN, vec![Notice::ExitedCleanly]),
            ),
            _ => self.refuse(),
        }
    }

    /// Takes the outcome of the awaited action and answers with the next
    /// action. An event that is no outcome of the awaited action is refused
    /// and changes nothing.
    pub fn step(&mut self, event: Event) -> (r: Result<Step, OutOfTurn>)
        ensures
            match next(old(self)@, event@) {
                Some(outcome) => {
                    &&& r is Ok
                    &&& final(self)@ == outcome.engine
                    &&& r->Ok_0.action == outcome.engine.awaiting
                    &&& r->Ok_0.notices@ == outcome.notices
                },
                None => {
                    &&& r == Err::<Step, OutOfTurn>(OutOfTurn { awaiting: old(self)@.awaiting })
                    &&& final(self)@ == old(self)@
                },
            },
            old(self)@.wf() ==> final(self)@.wf(),
    {
        proof {
            if self@.wf() {
                law_well_formedness_is_kept(self@, event@);
            }
        }
        match self.state {
            SupervisionState::Starting => self.step_starting(event),
            SupervisionState::Running => self.step_running(event),
            SupervisionState::CrashRecovered => self.step_crash_recovered(event),
            SupervisionState::Reloading => self.step_reloading(event),
            SupervisionState::Draining => self.step_draining(event),
            SupervisionState::Stopped => self.refuse(),
        }
    }
}

/// Whether two heads show drift: both are known and they differ.
pub fn has_drifted(local: &String, remote: &String) -> (drift: bool)
    ensures
        drift == drifted(local@, remote@),
{
    !local.as_str().is_empty() && !remote.as_str().is_empty() && *local != *remote
}

} // verus!
