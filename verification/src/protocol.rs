//! The vocabulary shared by the reconciliation engine and its driver.
//!
//! The engine never touches the outside world. It hands the driver an
//! [`Action`], the driver performs it and answers with the [`Event`] that
//! describes how it went. What should be shown to the operator travels
//! beside the action as a list of [`Notice`]s.

use vstd::prelude::*;

verus! {

/// The discrete phase of supervision.
#[derive(Clone, Copy, Debug, PartialEq, Eq, Structural)]
pub enum SupervisionState {
    /// The initial clone and the first start are under way.
    Starting,
    /// Between ticks, or inside a tick that has found nothing to repair yet.
    Running,
    /// The supervised process was found dead; it is being brought back.
    CrashRecovered,
    /// The remote branch has moved; stop, re-sync and restart are under way.
    Reloading,
    /// Shutdown was requested; the supervised process is being killed.
    Draining,
    /// Terminal.
    Stopped,
}

/// One piece of outside work that the driver performs for the engine.
#[derive(Clone, Copy, Debug, PartialEq, Eq, Structural)]
pub enum Action {
    /// Remove whatever stands in the checkout directory and clone afresh.
    EnsureClone,
    /// Spawn the start command in the checkout directory.
    StartProcess,
    /// Look at the shutdown flag; if it is not set, sleep `secs` seconds.
    AwaitTick { secs: u64 },
    /// Ask, without blocking, whether the supervised process has exited.
    PollProcess,
    /// Open the local checkout and read its head commit.
    ReadLocalHead,
    /// Resolve the head commit of the tracked branch on the remote.
    FetchRemoteHead,
    /// Run the stop command and block until it has exited.
    RunStopCommand,
    /// Sleep `secs` seconds so that the stopped process can wind down.
    Settle { secs: u64 },
    /// Kill the supervised process and wait until it is reaped.
    KillProcess,
    /// Remove the checkout directory.
    RemoveCheckout,
    /// Leave the program with this exit code.
    Exit { code: i32 },
}

impl Action {
    /// Whether performing the action creates a supervised process.
    pub open spec fn starts_process(self) -> bool {
        self == Action::StartProcess
    }

    /// Whether performing the action asks a supervised process to end.
    pub open spec fn ends_process(self) -> bool {
        self == Action::RunStopCommand || self == Action::KillProcess
    }

    /// Whether performing the action changes the checkout on disk.
    pub open spec fn mutates_filesystem(self) -> bool {
        self == Action::EnsureClone || self == Action::RemoveCheckout
    }

    /// Whether the action only observes or waits.
    pub open spec fn is_passive(self) -> bool {
        !self.starts_process() && !self.ends_process() && !self.mutates_filesystem()
            && !(self is Exit)
    }
}

/// How an [`Action`] went, as the driver reports it.
#[derive(Debug)]
pub enum Event {
    /// `EnsureClone` left a fresh checkout.
    Cloned,
    /// `EnsureClone` failed.
    CloneFailed,
    /// `StartProcess` spawned the process.
    Started,
    /// `StartProcess` could not spawn the process.
    StartFailed,
    /// `AwaitTick` slept through the interval.
    TickDue,
    /// `AwaitTick` found the shutdown flag set.
    ShutdownRequested,
    /// `PollProcess` found the process running.
    Alive,
    /// `PollProcess` found that the process has exited, with this code if it
    /// left one.
    Exited(Option<i32>),
    /// `PollProcess` could not tell.
    LivenessUnknown,
    /// `ReadLocalHead` read this commit.
    LocalHead(String),
    /// `ReadLocalHead` opened the checkout but could not resolve its head.
    LocalHeadUnreadable,
    /// `ReadLocalHead` found no checkout that can be opened.
    CheckoutMissing,
    /// `FetchRemoteHead` resolved this commit.
    RemoteHead(String),
    /// `FetchRemoteHead` failed.
    RemoteFailed,
    /// `RunStopCommand` ran the command until it exited, whatever its status.
    StopCommandDone,
    /// `RunStopCommand` could not run the command at all.
    StopCommandFailed,
    /// `Settle` is over.
    Settled,
    /// `KillProcess` is over; termination is best effort and cannot fail.
    Killed,
    /// `RemoveCheckout` removed the directory.
    Removed,
    /// `RemoveCheckout` failed.
    RemoveFailed,
}

/// The mathematical value of an [`Event`].
pub enum EventView {
    Cloned,
    CloneFailed,
    Started,
    StartFailed,
    TickDue,
    ShutdownRequested,
    Alive,
    Exited(Option<i32>),
    LivenessUnknown,
    LocalHead(Seq<char>),
    LocalHeadUnreadable,
    CheckoutMissing,
    RemoteHead(Seq<char>),
    RemoteFailed,
    StopCommandDone,
    StopCommandFailed,
    Settled,
    Killed,
    Removed,
    RemoveFailed,
}

impl View for Event {
    type V = EventView;

    open spec fn view(&self) -> EventView {
        match *self {
            Event::Cloned => EventView::Cloned,
            Event::CloneFailed => EventView::CloneFailed,
            Event::Started => EventView::Started,
            Event::StartFailed => EventView::StartFailed,
            Event::TickDue => EventView::TickDue,
            Event::ShutdownRequested => EventView::ShutdownRequested,
            Event::Alive => EventView::Alive,
            Event::Exited(code) => EventView::Exited(code),
            Event::LivenessUnknown => EventView::LivenessUnknown,
            Event::LocalHead(hash) => EventView::LocalHead(hash@),
            Event::LocalHeadUnreadable => EventView::LocalHeadUnreadable,
            Event::CheckoutMissing => EventView::CheckoutMissing,
            Event::RemoteHead(hash) => EventView::RemoteHead(hash@),
            Event::RemoteFailed => EventView::RemoteFailed,
            Event::StopCommandDone => EventView::StopCommandDone,
            Event::StopCommandFailed => EventView::StopCommandFailed,
            Event::Settled => EventView::Settled,
            Event::Killed => EventView::Killed,
            Event::Removed => EventView::Removed,
            Event::RemoveFailed => EventView::RemoveFailed,
        }
    }
}

impl EventView {
    /// Whether the event reports that the action did not do what it was
    /// asked for.
    pub open spec fn is_failure(self) -> bool {
        match self {
            EventView::CloneFailed
            | EventView::StartFailed
            | EventView::LivenessUnknown
            | EventView::LocalHeadUnreadable
            | EventView::CheckoutMissing
            | EventView::RemoteFailed
            | EventView::StopCommandFailed
            | EventView::RemoveFailed => true,
            _ => false,
        }
    }
}

/// How loudly a [`Notice`] is shown.
#[derive(Clone, Copy, Debug, PartialEq, Eq, Structural)]
pub enum Severity {
    /// Progress that needs no attention.
    Info,
    /// Something was brought into the wanted state.
    Success,
    /// Something is off; supervision repairs it or goes on without it.
    Warning,
    /// An operation failed; nothing past the current tick is given up unless
    /// the notice is fatal.
    Failure,
}

/// A structured status line for the operator.
#[derive(Clone, Copy, Debug, PartialEq, Eq, Structural)]
pub enum Notice {
    /// The initial clone succeeded.
    RepositoryPrepared,
    /// The initial clone failed; startup goes on regardless.
    InitialCloneFailed,
    /// No start command is configured. Fatal at startup.
    NoStartCommand,
    /// The first start succeeded.
    ProcessStarted,
    /// The first start failed. Fatal.
    InitialStartFailed,
    /// Shutdown was requested; the supervised process is being stopped.
    ShuttingDown,
    /// The supervised process has exited; updates are checked before it is
    /// restarted.
    ProcessExited { code: Option<i32> },
    /// The liveness check itself failed; the tick is skipped.
    LivenessUnknown,
    /// The head of the local checkout could not be read; it counts as empty.
    LocalHeadUnreadable,
    /// The local checkout could not be opened during crash recovery.
    CrashCheckoutUnreadable,
    /// The remote head could not be resolved.
    RemoteQueryFailed,
    /// Crash recovery found new commits; the checkout is replaced before the
    /// restart.
    UpdateAvailable,
    /// Crash recovery found no new commits.
    NoNewCommits,
    /// The checkout directory could not be removed.
    CleanupFailed,
    /// Cloning afresh failed after the old checkout was removed.
    RecloneFailed,
    /// Crash recovery replaced the checkout.
    RepositoryUpdated,
    /// No start command is configured, so the process cannot be restarted.
    CannotRestart,
    /// The process was restarted after a crash.
    Restarted,
    /// The start command could not be spawned; the next tick tries again.
    RestartFailed,
    /// The local checkout is missing; a clone is attempted.
    CheckoutMissing,
    /// The clone that should replace a missing checkout failed.
    RetryCloneFailed,
    /// The clone that replaces a missing checkout succeeded.
    RepositoryRecloned,
    /// One of the two hashes is empty; the tick is inconclusive.
    SkippedInvalidHashes,
    /// Local and remote head agree.
    NoChanges,
    /// Local and remote head differ; a reload begins.
    ChangeDetected,
    /// The stop command could not be run; the reload is given up for this
    /// tick.
    StopCommandFailed,
    /// The old process is out of the way; the old checkout is removed next.
    RemovingCheckout,
    /// The reload went through.
    Reloaded,
    /// The supervised process was stopped and the program ends.
    ExitedCleanly,
}

impl Notice {
    /// The severity under which the notice is shown.
    pub open spec fn spec_severity(self) -> Severity {
        match self {
            Notice::RepositoryPrepared
            | Notice::ProcessStarted
            | Notice::RepositoryUpdated
            | Notice::Restarted
            | Notice::RepositoryRecloned
            | Notice::Reloaded
            | Notice::ExitedCleanly => Severity::Success,
            Notice::UpdateAvailable
            | Notice::NoNewCommits
            | Notice::NoChanges
            | Notice::ChangeDetected => Severity::Info,
            Notice::ShuttingDown
            | Notice::ProcessExited { .. }
            | Notice::LocalHeadUnreadable
            | Notice::CheckoutMissing
            | Notice::SkippedInvalidHashes
            | Notice::RemovingCheckout => Severity::Warning,
            Notice::InitialCloneFailed
            | Notice::NoStartCommand
            | Notice::InitialStartFailed
            | Notice::LivenessUnknown
            | Notice::CrashCheckoutUnreadable
            | Notice::RemoteQueryFailed
            | Notice::CleanupFailed
            | Notice::RecloneFailed
            | Notice::CannotRestart
            | Notice::RestartFailed
            | Notice::RetryCloneFailed
            | Notice::StopCommandFailed => Severity::Failure,
        }
    }

    /// Whether the notice tells of something that went wrong.
    pub open spec fn is_alarm(self) -> bool {
        self.spec_severity() == Severity::Warning || self.spec_severity() == Severity::Failure
    }

    /// Whether the program ends because of what the notice tells.
    pub open spec fn spec_is_fatal(self) -> bool {
        self == Notice::NoStartCommand || self == Notice::InitialStartFailed
    }

    /// The severity under which the notice is shown.
    #[verifier::when_used_as_spec(spec_severity)]
    pub fn severity(self) -> (level: Severity)
        ensures
            level == self.spec_severity(),
    {
        match self {
            Notice::RepositoryPrepared => Severity::Success,
            Notice::InitialCloneFailed => Severity::Failure,
            Notice::NoStartCommand => Severity::Failure,
            Notice::ProcessStarted => Severity::Success,
            Notice::InitialStartFailed => Severity::Failure,
            Notice::ShuttingDown => Severity::Warning,
            Notice::ProcessExited { .. } => Severity::Warning,
            Notice::LivenessUnknown => Severity::Failure,
            Notice::LocalHeadUnreadable => Severity::Warning,
            Notice::CrashCheckoutUnreadable => Severity::Failure,
            Notice::RemoteQueryFailed => Severity::Failure,
            Notice::UpdateAvailable => Severity::Info,
            Notice::NoNewCommits => Severity::Info,
            Notice::CleanupFailed => Severity::Failure,
            Notice::RecloneFailed => Severity::Failure,
            Notice::RepositoryUpdated => Severity::Success,
            Notice::CannotRestart => Severity::Failure,
            Notice::Restarted => Severity::Success,
            Notice::RestartFailed => Severity::Failure,
            Notice::CheckoutMissing => Severity::Warning,
            Notice::RetryCloneFailed => Severity::Failure,
            Notice::RepositoryRecloned => Severity::Success,
            Notice::SkippedInvalidHashes => Severity::Warning,
            Notice::NoChanges => Severity::Info,
            Notice::ChangeDetected => Severity::Info,
            Notice::StopCommandFailed => Severity::Failure,
            Notice::RemovingCheckout => Severity::Warning,
            Notice::Reloaded => Severity::Success,
            Notice::ExitedCleanly => Severity::Success,
        }
    }

    /// Whether the program ends because of what the notice tells.
    #[verifier::when_used_as_spec(spec_is_fatal)]
    pub fn is_fatal(self) -> (fatal: bool)
        ensures
            fatal == self.spec_is_fatal(),
    {
        match self {
            Notice::NoStartCommand => true,
            Notice::InitialStartFailed => true,
            _ => false,
        }
    }
}

} // verus!
