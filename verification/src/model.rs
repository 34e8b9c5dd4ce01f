//! The reconciliation engine as a transition system over plain values.
//!
//! Everything here is specification: the executable engine is proved to move
//! exactly as [`next`] says, and the laws of supervision are proved about
//! [`next`] and about runs of it.

use vstd::prelude::*;
use crate::protocol::{Action, EventView, Notice, SupervisionState};

verus! {

/// Seconds that a reload waits after the stop command has exited.
pub const SETTLE_SECS: u64 = 1;

/// Exit code of an orderly shutdown.
pub const EXIT_CLEAN: i32 = 0;

/// Exit code when startup cannot bring up the supervised process.
pub const EXIT_FATAL: i32 = 1;

/// Drift: both heads are known and they name different commits. An empty
/// hash on either side never counts as a change.
pub open spec fn drifted(local: Seq<char>, remote: Seq<char>) -> bool {
    local.len() > 0 && remote.len() > 0 && local != remote
}

/// The mathematical value of the engine.
pub struct EngineView {
    /// Seconds between two ticks.
    pub interval: u64,
    /// Whether a start command is configured.
    pub has_start: bool,
    /// Whether a stop command is configured.
    pub has_stop: bool,
    /// The phase of supervision.
    pub state: SupervisionState,
    /// The action that was handed out last and whose outcome is awaited.
    pub awaiting: Action,
    /// The local head read in this tick, kept only while the remote head is
    /// being fetched.
    pub local_head: Seq<char>,
}

/// What one accepted event leads to.
pub struct Outcome {
    /// The engine afterwards; its `awaiting` is the action to perform next.
    pub engine: EngineView,
    /// What to tell the operator, in order.
    pub notices: Seq<Notice>,
}

impl EngineView {
    /// The engine before anything has happened.
    pub open spec fn initial(interval: u64, has_start: bool, has_stop: bool) -> EngineView {
        EngineView {
            interval,
            has_start,
            has_stop,
            state: SupervisionState::Starting,
            awaiting: Action::EnsureClone,
            local_head: Seq::empty(),
        }
    }

    /// The same configuration in another phase, awaiting another action, with
    /// no local head kept.
    pub open spec fn moved(self, state: SupervisionState, awaiting: Action) -> EngineView {
        EngineView { state, awaiting, local_head: Seq::empty(), ..self }
    }

    /// The engine between two ticks.
    pub open spec fn idle(self) -> EngineView {
        self.moved(SupervisionState::Running, Action::AwaitTick { secs: self.interval })
    }

    /// The engine fetching the remote head while it keeps `local`.
    pub open spec fn fetching(self, local: Seq<char>) -> EngineView {
        EngineView { awaiting: Action::FetchRemoteHead, local_head: local, ..self }
    }

    /// The engine at its end.
    pub open spec fn halted(self, code: i32) -> EngineView {
        self.moved(SupervisionState::Stopped, Action::Exit { code })
    }

    /// Whether the engine stands between two ticks.
    pub open spec fn at_tick_boundary(self) -> bool {
        self == self.idle()
    }

    /// Whether phase and awaited action belong together, and a local head is
    /// kept only while the remote head is awaited.
    pub open spec fn wf(self) -> bool {
        &&& self.awaiting != Action::FetchRemoteHead ==> self.local_head.len() == 0
        &&& match self.state {
            SupervisionState::Starting => {
                ||| self.awaiting == Action::EnsureClone
                ||| self.awaiting == Action::StartProcess && self.has_start
            },
            SupervisionState::Running => {
                ||| self.awaiting == Action::AwaitTick { secs: self.interval }
                ||| self.awaiting == Action::PollProcess
                ||| self.awaiting == Action::ReadLocalHead
                ||| self.awaiting == Action::FetchRemoteHead
                ||| self.awaiting == Action::EnsureClone
            },
            SupervisionState::CrashRecovered => {
                ||| self.awaiting == Action::ReadLocalHead
                ||| self.awaiting == Action::FetchRemoteHead
                ||| self.awaiting == Action::RemoveCheckout
                ||| self.awaiting == Action::EnsureClone
                ||| self.awaiting == Action::StartProcess && self.has_start
            },
            SupervisionState::Reloading => {
                ||| self.awaiting == Action::RunStopCommand && self.has_stop
                ||| self.awaiting == Action::Settle { secs: SETTLE_SECS } && self.has_stop
                ||| self.awaiting == Action::KillProcess && !self.has_stop
                ||| self.awaiting == Action::RemoveCheckout
                ||| self.awaiting == Action::EnsureClone
                ||| self.awaiting == Action::StartProcess && self.has_start
            },
            SupervisionState::Draining => self.awaiting == Action::KillProcess,
            SupervisionState::Stopped => {
                ||| self.awaiting == Action::Exit { code: EXIT_CLEAN }
                ||| self.awaiting == Action::Exit { code: EXIT_FATAL }
            },
        }
    }
}

/// Startup after the initial clone, however the clone went: the first start,
/// or the end of the program where no start command is configured.
pub open spec fn first_start(s: EngineView, notices: Seq<Notice>) -> Outcome {
    if s.has_start {
        Outcome { engine: s.moved(SupervisionState::Starting, Action::StartProcess), notices }
    } else {
        Outcome { engine: s.halted(EXIT_FATAL), notices: notices.push(Notice::NoStartCommand) }
    }
}

/// The end of crash recovery: the restart, which is owed whether or not an
/// update was found. Without a start command the process stays dead and the
/// tick is over.
pub open spec fn restart(s: EngineView, notices: Seq<Notice>) -> Outcome {
    if s.has_start {
        Outcome {
            engine: s.moved(SupervisionState::CrashRecovered, Action::StartProcess),
            notices,
        }
    } else {
        Outcome { engine: s.idle(), notices: notices.push(Notice::CannotRestart) }
    }
}

/// The tick is over.
pub open spec fn tick_over(s: EngineView, notices: Seq<Notice>) -> Outcome {
    Outcome { engine: s.idle(), notices }
}

/// The engine goes on inside the tick.
pub open spec fn go_on(
    s: EngineView,
    state: SupervisionState,
    awaiting: Action,
    notices: Seq<Notice>,
) -> Outcome {
    Outcome { engine: s.moved(state, awaiting), notices }
}

/// The action that takes the old process out of the way of a reload.
pub open spec fn stop_action(has_stop: bool) -> Action {
    if has_stop {
        Action::RunStopCommand
    } else {
        Action::KillProcess
    }
}

/// Transitions while the initial clone and the first start are under way.
pub open spec fn next_starting(s: EngineView, e: EventView) -> Option<Outcome> {
    match (s.awaiting, e) {
        (Action::EnsureClone, EventView::Cloned) => Some(
            first_start(s, seq![Notice::RepositoryPrepared]),
        ),
        (Action::EnsureClone, EventView::CloneFailed) => Some(
            first_start(s, seq![Notice::InitialCloneFailed]),
        ),
        (Action::StartProcess, EventView::Started) => Some(
            tick_over(s, seq![Notice::ProcessStarted]),
        ),
        (Action::StartProcess, EventView::StartFailed) => Some(
            Outcome { engine: s.halted(EXIT_FATAL), notices: seq![Notice::InitialStartFailed] },
        ),
        _ => None,
    }
}

/// Transitions of a tick that has found nothing to repair yet: the liveness
/// check first, the drift check only for a live process.
pub open spec fn next_running(s: EngineView, e: EventView) -> Option<Outcome> {
    match (s.awaiting, e) {
        (Action::AwaitTick { .. }, EventView::TickDue) => Some(
            go_on(s, SupervisionState::Running, Action::PollProcess, seq![]),
        ),
        (Action::AwaitTick { .. }, EventView::ShutdownRequested) => Some(
            go_on(s, SupervisionState::Draining, Action::KillProcess, seq![Notice::ShuttingDown]),
        ),
        (Action::PollProcess, EventView::Alive) => Some(
            go_on(s, SupervisionState::Running, Action::ReadLocalHead, seq![]),
        ),
        (Action::PollProcess, EventView::Exited(code)) => Some(
            go_on(
                s,
                SupervisionState::CrashRecovered,
                Action::ReadLocalHead,
                seq![Notice::ProcessExited { code }],
            ),
        ),
        (Action::PollProcess, EventView::LivenessUnknown) => Some(
            tick_over(s, seq![Notice::LivenessUnknown]),
        ),
        (Action::ReadLocalHead, EventView::CheckoutMissing) => Some(
            go_on(s, SupervisionState::Running, Action::EnsureClone, seq![Notice::CheckoutMissing]),
        ),
        (Action::ReadLocalHead, EventView::LocalHead(local)) => Some(
            Outcome { engine: s.fetching(local), notices: seq![] },
        ),
        (Action::ReadLocalHead, EventView::LocalHeadUnreadable) => Some(
            Outcome {
                engine: s.fetching(Seq::empty()),
                notices: seq![Notice::LocalHeadUnreadable],
            },
        ),
        (Action::EnsureClone, EventView::Cloned) => Some(
            tick_over(s, seq![Notice::RepositoryRecloned]),
        ),
        (Action::EnsureClone, EventView::CloneFailed) => Some(
            tick_over(s, seq![Notice::RetryCloneFailed]),
        ),
        (Action::FetchRemoteHead, EventView::RemoteFailed) => Some(
            tick_over(s, seq![Notice::RemoteQueryFailed]),
        ),
        (Action::FetchRemoteHead, EventView::RemoteHead(remote)) => Some(
            if drifted(s.local_head, remote) {
                go_on(
                    s,
                    SupervisionState::Reloading,
                    stop_action(s.has_stop),
                    seq![Notice::ChangeDetected],
                )
            } else if s.local_head == remote && remote.len() > 0 {
                tick_over(s, seq![Notice::NoChanges])
            } else {
                tick_over(s, seq![Notice::SkippedInvalidHashes])
            },
        ),
        _ => None,
    }
}

/// Transitions of crash recovery: a best-effort update, then the restart.
pub open spec fn next_crash_recovered(s: EngineView, e: EventView) -> Option<Outcome> {
    match (s.awaiting, e) {
        (Action::ReadLocalHead, EventView::CheckoutMissing) => Some(
            restart(s, seq![Notice::CrashCheckoutUnreadable]),
        ),
        (Action::ReadLocalHead, EventView::LocalHead(local)) => Some(
            Outcome { engine: s.fetching(local), notices: seq![] },
        ),
        (Action::ReadLocalHead, EventView::LocalHeadUnreadable) => Some(
            Outcome {
                engine: s.fetching(Seq::empty()),
                notices: seq![Notice::LocalHeadUnreadable],
            },
        ),
        (Action::FetchRemoteHead, EventView::RemoteFailed) => Some(
            restart(s, seq![Notice::RemoteQueryFailed]),
        ),
        (Action::FetchRemoteHead, EventView::RemoteHead(remote)) => Some(
            if drifted(s.local_head, remote) {
                go_on(
                    s,
                    SupervisionState::CrashRecovered,
                    Action::RemoveCheckout,
                    seq![Notice::UpdateAvailable],
                )
            } else {
                restart(s, seq![Notice::NoNewCommits])
            },
        ),
        (Action::RemoveCheckout, EventView::Removed) => Some(
            go_on(s, SupervisionState::CrashRecovered, Action::EnsureClone, seq![]),
        ),
        (Action::RemoveCheckout, EventView::RemoveFailed) => Some(
            restart(s, seq![Notice::CleanupFailed]),
        ),
        (Action::EnsureClone, EventView::Cloned) => Some(
            restart(s, seq![Notice::RepositoryUpdated]),
        ),
        (Action::EnsureClone, EventView::CloneFailed) => Some(
            restart(s, seq![Notice::RecloneFailed]),
        ),
        (Action::StartProcess, EventView::Started) => Some(tick_over(s, seq![Notice::Restarted])),
        (Action::StartProcess, EventView::StartFailed) => Some(
            tick_over(s, seq![Notice::RestartFailed]),
        ),
        _ => None,
    }
}

/// Transitions of a reload: stop, remove, clone, start, in this order, and
/// given up for the tick at the first step that fails.
pub open spec fn next_reloading(s: EngineView, e: EventView) -> Option<Outcome> {
    match (s.awaiting, e) {
        (Action::RunStopCommand, EventView::StopCommandDone) => Some(
            go_on(s, SupervisionState::Reloading, Action::Settle { secs: SETTLE_SECS }, seq![]),
        ),
        (Action::RunStopCommand, EventView::StopCommandFailed) => Some(
            tick_over(s, seq![Notice::StopCommandFailed]),
        ),
        (Action::Settle { .. }, EventView::Settled) => Some(
            go_on(
                s,
                SupervisionState::Reloading,
                Action::RemoveCheckout,
                seq![Notice::RemovingCheckout],
            ),
        ),
        (Action::KillProcess, EventView::Killed) => Some(
            go_on(
                s,
                SupervisionState::Reloading,
                Action::RemoveCheckout,
                seq![Notice::RemovingCheckout],
            ),
        ),
        (Action::RemoveCheckout, EventView::Removed) => Some(
            go_on(s, SupervisionState::Reloading, Action::EnsureClone, seq![]),
        ),
        (Action::RemoveCheckout, EventView::RemoveFailed) => Some(
            tick_over(s, seq![Notice::CleanupFailed]),
        ),
        (Action::EnsureClone, EventView::Cloned) => Some(
            if s.has_start {
                go_on(s, SupervisionState::Reloading, Action::StartProcess, seq![])
            } else {
                tick_over(s, seq![Notice::Reloaded])
            },
        ),
        (Action::EnsureClone, EventView::CloneFailed) => Some(
            tick_over(s, seq![Notice::RecloneFailed]),
        ),
        (Action::StartProcess, EventView::Started) => Some(tick_over(s, seq![Notice::Reloaded])),
        (Action::StartProcess, EventView::StartFailed) => Some(
            tick_over(s, seq![Notice::RestartFailed]),
        ),
        _ => None,
    }
}

/// Transitions of the terminal shutdown sequence.
pub open spec fn next_draining(s: EngineView, e: EventView) -> Option<Outcome> {
    match (s.awaiting, e) {
        (Action::KillProcess, EventView::Killed) => Some(
            Outcome { engine: s.halted(EXIT_CLEAN), notices: seq![Notice::ExitedCleanly] },
        ),
        _ => None,
    }
}

/// The transition function: what follows from event `e` in engine `s`, or
/// `None` where `e` is no answer to the action that `s` awaits.
pub open spec fn next(s: EngineView, e: EventView) -> Option<Outcome> {
    match s.state {
        SupervisionState::Starting => next_starting(s, e),
        SupervisionState::Running => next_running(s, e),
        SupervisionState::CrashRecovered => next_crash_recovered(s, e),
        SupervisionState::Reloading => next_reloading(s, e),
        SupervisionState::Draining => next_draining(s, e),
        SupervisionState::Stopped => None,
    }
}

/// The engine after `e`; an event out of turn leaves it as it is.
pub open spec fn after(s: EngineView, e: EventView) -> EngineView {
    match next(s, e) {
        Some(outcome) => outcome.engine,
        None => s,
    }
}

/// The engine after a whole sequence of events.
pub open spec fn after_all(s: EngineView, events: Seq<EventView>) -> EngineView
    decreases events.len(),
{
    if events.len() == 0 {
        s
    } else {
        after_all(after(s, events[0]), events.drop_first())
    }
}

/// The action handed out in answer to `e`, if `e` is accepted.
#[verifier::opaque]
pub open spec fn issued(s: EngineView, e: EventView) -> Seq<Action> {
    match next(s, e) {
        Some(outcome) => seq![outcome.engine.awaiting],
        None => seq![],
    }
}

/// The actions handed out along a sequence of events, one for each event that
/// was accepted.
pub open spec fn actions_of(s: EngineView, events: Seq<EventView>) -> Seq<Action>
    decreases events.len(),
{
    if events.len() == 0 {
        seq![]
    } else {
        issued(s, events[0]) + actions_of(after(s, events[0]), events.drop_first())
    }
}

/// How often a sequence of events makes the engine enter a reload.
pub open spec fn reloads(s: EngineView, events: Seq<EventView>) -> nat
    decreases events.len(),
{
    if events.len() == 0 {
        0
    } else {
        let t = after(s, events[0]);
        let entered: nat = if s.state != SupervisionState::Reloading && t.state
            == SupervisionState::Reloading {
            1
        } else {
            0
        };
        entered + reloads(t, events.drop_first())
    }
}

} // verus!
