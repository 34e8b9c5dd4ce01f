//! What holds of every run of the reconciliation engine.
//!
//! Each law is a proof about the transition function of the model, which the
//! executable engine follows step by step.

use vstd::prelude::*;
use crate::model::{
    actions_of, after, after_all, drifted, issued, next, reloads, restart, stop_action, EngineView,
    EXIT_CLEAN,
};
use crate::protocol::{Action, EventView, Notice, SupervisionState};

verus! {

/// How many of `events` report that a tick has come due.
pub open spec fn ticks(events: Seq<EventView>) -> nat
    decreases events.len(),
{
    if events.len() == 0 {
        0
    } else {
        let due: nat = if events[0] == EventView::TickDue {
            1
        } else {
            0
        };
        due + ticks(events.drop_first())
    }
}

/// How many reloads the tick that `s` stands in can still begin: one while
/// the drift check lies ahead, none otherwise.
pub open spec fn reloads_ahead(s: EngineView) -> nat {
    if s.state == SupervisionState::Running && (s.awaiting == Action::PollProcess || s.awaiting
        == Action::ReadLocalHead || s.awaiting == Action::FetchRemoteHead) {
        1
    } else {
        0
    }
}

/// One tick in which the process is alive and both heads resolve.
pub open spec fn checked_tick(local: Seq<char>, remote: Seq<char>) -> Seq<EventView> {
    seq![
        EventView::TickDue,
        EventView::Alive,
        EventView::LocalHead(local),
        EventView::RemoteHead(remote),
    ]
}

/// One tick after another in which the process is alive and the remote head
/// is the same as the local one, `heads[i]` in the tick of that number.
pub open spec fn settled_ticks(heads: Seq<Seq<char>>) -> Seq<EventView>
    decreases heads.len(),
{
    if heads.len() == 0 {
        seq![]
    } else {
        checked_tick(heads[0], heads[0]) + settled_ticks(heads.drop_first())
    }
}

/// The place of an awaited action in the order of a reload.
pub open spec fn reload_stage(awaiting: Action) -> nat {
    match awaiting {
        Action::RunStopCommand => 0,
        Action::Settle { .. } => 1,
        Action::KillProcess => 1,
        Action::RemoveCheckout => 2,
        Action::EnsureClone => 3,
        Action::StartProcess => 4,
        _ => 5,
    }
}

/// How far into its tick the engine `s` has come.
pub open spec fn progress(s: EngineView) -> nat {
    match s.state {
        SupervisionState::Starting => match s.awaiting {
            Action::EnsureClone => 1,
            _ => 2,
        },
        SupervisionState::Running => match s.awaiting {
            Action::AwaitTick { .. } => 0,
            Action::PollProcess => 1,
            Action::ReadLocalHead => 2,
            _ => 3,
        },
        SupervisionState::CrashRecovered => match s.awaiting {
            Action::ReadLocalHead => 2,
            Action::FetchRemoteHead => 3,
            Action::RemoveCheckout => 4,
            Action::EnsureClone => 5,
            _ => 6,
        },
        SupervisionState::Reloading => 4 + reload_stage(s.awaiting),
        SupervisionState::Draining => 1,
        SupervisionState::Stopped => 10,
    }
}

/// The engine starts out well-formed.
pub proof fn law_initial_is_well_formed(interval: u64, has_start: bool, has_stop: bool)
    ensures
        EngineView::initial(interval, has_start, has_stop).wf(),
{
}

/// No event takes a well-formed engine to one that is not: phase and awaited
/// action always belong together.
pub proof fn law_well_formedness_is_kept(s: EngineView, e: EventView)
    requires
        s.wf(),
    ensures
        after(s, e).wf(),
{
}

/// The engine asks for nothing that is not configured: a start is handed out
/// only where there is a start command, a run of the stop command only where
/// there is a stop command.
pub proof fn law_commands_exist_when_asked_for(s: EngineView, e: EventView)
    requires
        next(s, e) is Some,
    ensures
        after(s, e).awaiting == Action::StartProcess ==> s.has_start,
        after(s, e).awaiting == Action::RunStopCommand ==> s.has_stop,
{
}

/// The liveness check comes first in every tick, and the checkout is looked
/// at for drift only after the process was found alive.
pub proof fn law_liveness_comes_first(s: EngineView, e: EventView)
    requires
        next(s, e) is Some,
    ensures
        s.at_tick_boundary() && e == EventView::TickDue ==> after(s, e).awaiting
            == Action::PollProcess,
        after(s, e).state == SupervisionState::Running && after(s, e).awaiting
            == Action::ReadLocalHead ==> s.awaiting == Action::PollProcess && e
            == EventView::Alive,
{
}

/// Crash recovery begins nowhere but at the liveness check, and only when
/// the process is reported to have exited.
pub proof fn law_crash_recovery_begins_only_on_exit(s: EngineView, e: EventView)
    requires
        s.state != SupervisionState::CrashRecovered,
        after(s, e).state == SupervisionState::CrashRecovered,
    ensures
        s.state == SupervisionState::Running,
        s.awaiting == Action::PollProcess,
        (e is Exited),
{
}

/// No process is started beside one that is believed to live. A start is
/// asked for only at startup, in crash recovery, which begins with the
/// report that the process has exited, and at the end of a reload, which has
/// stopped or killed the process before. A start never begins a phase.
pub proof fn law_start_follows_exit_or_stop(s: EngineView, e: EventView)
    requires
        next(s, e) is Some,
        after(s, e).awaiting == Action::StartProcess,
    ensures
        after(s, e).state == s.state,
        s.state == SupervisionState::Starting || s.state == SupervisionState::CrashRecovered
            || s.state == SupervisionState::Reloading,
        s.state != SupervisionState::CrashRecovered ==> s.awaiting == Action::EnsureClone,
        s.state == SupervisionState::Reloading ==> e == EventView::Cloned,
{
}

/// A checkout is never cloned over: but for the initial clone, which a new
/// engine awaits, a clone is asked for only after the old directory was
/// removed or was found missing.
pub proof fn law_clone_follows_removal(s: EngineView, e: EventView)
    requires
        next(s, e) is Some,
        after(s, e).awaiting == Action::EnsureClone,
    ensures
        (s.awaiting == Action::RemoveCheckout && e == EventView::Removed) || (s.state
            == SupervisionState::Running && s.awaiting == Action::ReadLocalHead && e
            == EventView::CheckoutMissing),
{
}

/// With the process alive and the remote head resolved, a reload begins if
/// and only if the two heads are non-empty and distinct. It begins with the
/// stop command where one is configured and with a kill where none is.
pub proof fn law_reload_begins_exactly_on_drift(s: EngineView, remote: Seq<char>)
    requires
        s.state == SupervisionState::Running,
        s.awaiting == Action::FetchRemoteHead,
    ensures
        after(s, EventView::RemoteHead(remote)).state == SupervisionState::Reloading <==> drifted(
            s.local_head,
            remote,
        ),
        drifted(s.local_head, remote) ==> after(s, EventView::RemoteHead(remote)).awaiting
            == stop_action(s.has_stop),
        !drifted(s.local_head, remote) ==> after(s, EventView::RemoteHead(remote)) == s.idle(),
{
}

/// A reload begins nowhere but at the drift check.
pub proof fn law_reload_begins_only_at_drift_check(s: EngineView, e: EventView)
    requires
        s.state != SupervisionState::Reloading,
        after(s, e).state == SupervisionState::Reloading,
    ensures
        s.state == SupervisionState::Running,
        s.awaiting == Action::FetchRemoteHead,
        e is RemoteHead,
        drifted(s.local_head, e->RemoteHead_0),
{
}

/// Whatever is reported, in whatever order, the engine begins no more
/// reloads than ticks come due, plus the one that the tick it stands in may
/// still have ahead.
pub proof fn law_at_most_one_reload_per_tick(s: EngineView, events: Seq<EventView>)
    ensures
        reloads(s, events) <= reloads_ahead(s) + ticks(events),
    decreases events.len(),
{
    if events.len() > 0 {
        law_at_most_one_reload_per_tick(after(s, events[0]), events.drop_first());
    }
}

/// For every pair of distinct non-empty hashes: the tick that observes the
/// pair begins a reload, and begins it once. Whatever is reported afterwards,
/// no second reload begins before another tick comes due.
pub proof fn law_drift_reloads_exactly_once(
    s: EngineView,
    local: Seq<char>,
    remote: Seq<char>,
    rest: Seq<EventView>,
)
    requires
        s.at_tick_boundary(),
        drifted(local, remote),
        ticks(rest) == 0,
    ensures
        reloads(s, checked_tick(local, remote) + rest) == 1,
        after_all(s, checked_tick(local, remote)).state == SupervisionState::Reloading,
{
    let tick = checked_tick(local, remote);
    lemma_reloads_split(s, tick, rest);
    lemma_checked_tick(s, local, remote);
    law_at_most_one_reload_per_tick(after_all(s, tick), rest);
}

/// For every pair of hashes of which one is empty: the tick that observes the
/// pair begins no reload and ends where it began, and no reload begins before
/// another tick comes due.
pub proof fn law_inconclusive_tick_never_reloads(
    s: EngineView,
    local: Seq<char>,
    remote: Seq<char>,
    rest: Seq<EventView>,
)
    requires
        s.at_tick_boundary(),
        local.len() == 0 || remote.len() == 0,
        ticks(rest) == 0,
    ensures
        reloads(s, checked_tick(local, remote) + rest) == 0,
        after_all(s, checked_tick(local, remote)) == s,
{
    let tick = checked_tick(local, remote);
    lemma_reloads_split(s, tick, rest);
    lemma_checked_tick(s, local, remote);
    law_at_most_one_reload_per_tick(after_all(s, tick), rest);
}

/// In crash recovery too an empty hash never counts as a change: the
/// checkout is left alone and the restart follows at once.
pub proof fn law_inconclusive_crash_keeps_checkout(s: EngineView, remote: Seq<char>)
    requires
        s.state == SupervisionState::CrashRecovered,
        s.awaiting == Action::FetchRemoteHead,
        s.local_head.len() == 0 || remote.len() == 0,
    ensures
        next(s, EventView::RemoteHead(remote)) == Some(restart(s, seq![Notice::NoNewCommits])),
        !after(s, EventView::RemoteHead(remote)).awaiting.mutates_filesystem(),
{
}

/// A crash takes priority over drift: the tick that finds the process dead
/// begins no reload, whatever the heads are.
pub proof fn law_crash_tick_never_reloads(
    s: EngineView,
    code: Option<i32>,
    rest: Seq<EventView>,
)
    requires
        s.at_tick_boundary(),
        ticks(rest) == 0,
    ensures
        reloads(s, seq![EventView::TickDue, EventView::Exited(code)] + rest) == 0,
{
    let head = seq![EventView::TickDue, EventView::Exited(code)];
    lemma_reloads_split(s, head, rest);
    let s1 = after(s, EventView::TickDue);
    let s2 = after(s1, EventView::Exited(code));
    assert(head.drop_first() =~= seq![EventView::Exited(code)]);
    assert(head.drop_first().drop_first() =~= Seq::<EventView>::empty());
    assert(after_all(s2, head.drop_first().drop_first()) == s2);
    assert(after_all(s1, head.drop_first()) == s2);
    assert(after_all(s, head) == s2);
    assert(reloads(s2, head.drop_first().drop_first()) == 0);
    assert(reloads(s1, head.drop_first()) == 0);
    assert(reloads(s, head) == 0);
    law_at_most_one_reload_per_tick(s2, rest);
}

/// Idempotence: while the remote head stays the same as the local one, tick
/// after tick, the engine only observes and waits. It starts and stops no
/// process, changes nothing on disk, and stands after the last tick where it
/// stood before the first.
pub proof fn law_settled_ticks_change_nothing(s: EngineView, heads: Seq<Seq<char>>)
    requires
        s.at_tick_boundary(),
    ensures
        after_all(s, settled_ticks(heads)) == s,
        reloads(s, settled_ticks(heads)) == 0,
        forall|i: int|
            0 <= i < actions_of(s, settled_ticks(heads)).len() ==> (#[trigger] actions_of(
                s,
                settled_ticks(heads),
            )[i]).is_passive(),
    decreases heads.len(),
{
    if heads.len() > 0 {
        let tick = checked_tick(heads[0], heads[0]);
        let rest = settled_ticks(heads.drop_first());
        lemma_checked_tick(s, heads[0], heads[0]);
        law_settled_ticks_change_nothing(s, heads.drop_first());
        lemma_after_all_split(s, tick, rest);
        lemma_reloads_split(s, tick, rest);
        lemma_actions_split(s, tick, rest);
    }
}

/// The order of a reload cannot be broken. Its first step is the stop
/// command, or the kill where there is none; the checkout is removed only
/// after that step has ended; the clone begins only after the removal has
/// succeeded; the start only after the clone has. Every other outcome ends
/// the reload for this tick.
pub proof fn law_reload_keeps_its_order(s: EngineView, e: EventView)
    requires
        s.state == SupervisionState::Reloading,
        next(s, e) is Some,
    ensures
        after(s, e) == s.idle() || after(s, e).state == SupervisionState::Reloading,
        after(s, e).state == SupervisionState::Reloading ==> {
            &&& reload_stage(after(s, e).awaiting) == reload_stage(s.awaiting) + 1
            &&& after(s, e).awaiting is Settle ==> s.awaiting == Action::RunStopCommand && e
                == EventView::StopCommandDone
            &&& after(s, e).awaiting == Action::RemoveCheckout ==> (s.awaiting is Settle && e
                == EventView::Settled) || (s.awaiting == Action::KillProcess && e
                == EventView::Killed)
            &&& after(s, e).awaiting == Action::EnsureClone ==> s.awaiting
                == Action::RemoveCheckout && e == EventView::Removed
            &&& after(s, e).awaiting == Action::StartProcess ==> s.awaiting
                == Action::EnsureClone && e == EventView::Cloned
        },
{
}

/// Crash recovery always comes to the restart: whatever the update check and
/// the re-clone report, the tick ends only after a start was attempted,
/// unless no start command is configured.
pub proof fn law_crash_recovery_restarts(s: EngineView, e: EventView)
    requires
        s.state == SupervisionState::CrashRecovered,
        s.has_start,
        next(s, e) is Some,
    ensures
        after(s, e) == s.idle() ==> s.awaiting == Action::StartProcess,
        after(s, e) != s.idle() ==> after(s, e).state == SupervisionState::CrashRecovered,
{
}

/// Every accepted event either ends the tick or takes the engine further
/// into it, and a tick has no more than eight stages: no tick goes round in
/// circles.
pub proof fn law_ticks_make_progress(s: EngineView, e: EventView)
    requires
        next(s, e) is Some,
    ensures
        after(s, e) == s.idle() || progress(s) < progress(after(s, e)),
        progress(after(s, e)) <= 10,
        progress(after(s, e)) > 8 ==> after(s, e).state == SupervisionState::Stopped,
{
}

/// No failure goes unreported: the answer to an event that tells of one
/// begins with a warning or a failure notice.
pub proof fn law_failures_are_reported(s: EngineView, e: EventView)
    requires
        next(s, e) is Some,
        e.is_failure(),
    ensures
        next(s, e)->Some_0.notices.len() > 0,
        next(s, e)->Some_0.notices[0].is_alarm(),
{
}

/// Nothing inside a tick ends the program: only startup can fail fatally,
/// and past startup the engine stops only on request.
pub proof fn law_only_startup_is_fatal(s: EngineView, e: EventView)
    requires
        next(s, e) is Some,
        after(s, e).state == SupervisionState::Stopped,
    ensures
        s.state == SupervisionState::Starting || (s.state == SupervisionState::Draining && after(
            s,
            e,
        ).awaiting == (Action::Exit { code: EXIT_CLEAN })),
        s.state == SupervisionState::Starting ==> after(s, e).awaiting != (Action::Exit {
            code: EXIT_CLEAN,
        }),
{
}

/// A shutdown request is taken only at a tick boundary.
pub proof fn law_shutdown_waits_for_tick_boundary(s: EngineView)
    requires
        next(s, EventView::ShutdownRequested) is Some,
    ensures
        s.state == SupervisionState::Running,
        (s.awaiting is AwaitTick),
{
}

/// Once shutdown is requested, the engine asks for one kill, then for the
/// clean exit, and after that for nothing, whatever is reported.
pub proof fn law_shutdown_is_final(s: EngineView, rest: Seq<EventView>)
    requires
        s.at_tick_boundary(),
    ensures
        after_all(s, seq![EventView::ShutdownRequested, EventView::Killed] + rest) == s.halted(
            EXIT_CLEAN,
        ),
        actions_of(s, seq![EventView::ShutdownRequested, EventView::Killed] + rest) == seq![
            Action::KillProcess,
            Action::Exit { code: EXIT_CLEAN },
        ],
{
    reveal(issued);
    let head = seq![EventView::ShutdownRequested, EventView::Killed];
    let s1 = after(s, EventView::ShutdownRequested);
    let s2 = after(s1, EventView::Killed);
    assert(head.drop_first() =~= seq![EventView::Killed]);
    assert(head.drop_first().drop_first() =~= Seq::<EventView>::empty());
    assert(after_all(s2, head.drop_first().drop_first()) == s2);
    assert(after_all(s1, head.drop_first()) == s2);
    assert(after_all(s, head) == s2);
    assert(actions_of(s2, head.drop_first().drop_first()) =~= Seq::<Action>::empty());
    assert(actions_of(s1, head.drop_first()) =~= seq![Action::Exit { code: EXIT_CLEAN }]);
    assert(actions_of(s, head) =~= seq![Action::KillProcess, Action::Exit { code: EXIT_CLEAN }]);
    lemma_after_all_split(s, head, rest);
    lemma_actions_split(s, head, rest);
    law_stopped_is_terminal(s2, rest);
    assert(actions_of(s, head) + Seq::<Action>::empty() =~= actions_of(s, head));
}

/// A stopped engine accepts no event and hands out no action.
pub proof fn law_stopped_is_terminal(s: EngineView, events: Seq<EventView>)
    requires
        s.state == SupervisionState::Stopped,
    ensures
        after_all(s, events) == s,
        actions_of(s, events) == Seq::<Action>::empty(),
    decreases events.len(),
{
    reveal(issued);
    if events.len() > 0 {
        law_stopped_is_terminal(s, events.drop_first());
    }
}

proof fn lemma_after_all_split(s: EngineView, first: Seq<EventView>, second: Seq<EventView>)
    ensures
        after_all(s, first + second) == after_all(after_all(s, first), second),
    decreases first.len(),
{
    if first.len() == 0 {
        assert(first + second =~= second);
    } else {
        assert((first + second).drop_first() =~= first.drop_first() + second);
        lemma_after_all_split(after(s, first[0]), first.drop_first(), second);
    }
}

proof fn lemma_reloads_split(s: EngineView, first: Seq<EventView>, second: Seq<EventView>)
    ensures
        reloads(s, first + second) == reloads(s, first) + reloads(after_all(s, first), second),
    decreases first.len(),
{
    if first.len() == 0 {
        assert(first + second =~= second);
    } else {
        assert((first + second).drop_first() =~= first.drop_first() + second);
        lemma_reloads_split(after(s, first[0]), first.drop_first(), second);
    }
}

proof fn lemma_actions_split(s: EngineView, first: Seq<EventView>, second: Seq<EventView>)
    ensures
        actions_of(s, first + second) == actions_of(s, first) + actions_of(
            after_all(s, first),
            second,
        ),
    decreases first.len(),
{
    if first.len() == 0 {
        assert(first + second =~= second);
        assert(actions_of(s, first) + actions_of(s, second) =~= actions_of(s, second));
    } else {
        assert((first + second).drop_first() =~= first.drop_first() + second);
        lemma_actions_split(after(s, first[0]), first.drop_first(), second);
        let t = after(s, first[0]);
        let head = issued(s, first[0]);
        let tail = actions_of(t, first.drop_first());
        let last = actions_of(after_all(t, first.drop_first()), second);
        assert((head + tail) + last =~= head + (tail + last));
    }
}

/// What one tick with a live process and both heads resolved comes to.
proof fn lemma_checked_tick(s: EngineView, local: Seq<char>, remote: Seq<char>)
    requires
        s.at_tick_boundary(),
    ensures
        after_all(s, checked_tick(local, remote)) == after(
            s.idle().fetching(local),
            EventView::RemoteHead(remote),
        ),
        drifted(local, remote) ==> {
            &&& after_all(s, checked_tick(local, remote)).state == SupervisionState::Reloading
            &&& reloads(s, checked_tick(local, remote)) == 1
            &&& actions_of(s, checked_tick(local, remote)) == seq![
                Action::PollProcess,
                Action::ReadLocalHead,
                Action::FetchRemoteHead,
                stop_action(s.has_stop),
            ]
        },
        !drifted(local, remote) ==> {
            &&& after_all(s, checked_tick(local, remote)) == s
            &&& reloads(s, checked_tick(local, remote)) == 0
            &&& actions_of(s, checked_tick(local, remote)) == seq![
                Action::PollProcess,
                Action::ReadLocalHead,
                Action::FetchRemoteHead,
                Action::AwaitTick { secs: s.interval },
            ]
        },
{
    reveal(issued);
    let tick = checked_tick(local, remote);
    let t1 = tick.drop_first();
    let t2 = t1.drop_first();
    let t3 = t2.drop_first();
    let t4 = t3.drop_first();
    assert(t1 =~= seq![
        EventView::Alive,
        EventView::LocalHead(local),
        EventView::RemoteHead(remote),
    ]);
    assert(t2 =~= seq![EventView::LocalHead(local), EventView::RemoteHead(remote)]);
    assert(t3 =~= seq![EventView::RemoteHead(remote)]);
    assert(t4 =~= Seq::<EventView>::empty());
    let s1 = after(s, tick[0]);
    let s2 = after(s1, t1[0]);
    let s3 = after(s2, t2[0]);
    let s4 = after(s3, t3[0]);
    assert(s3 == s.idle().fetching(local));
    assert(after_all(s4, t4) == s4);
    assert(after_all(s3, t3) == s4);
    assert(after_all(s2, t2) == s4);
    assert(after_all(s1, t1) == s4);
    assert(reloads(s4, t4) == 0);
    assert(reloads(s3, t3) == if drifted(local, remote) { 1nat } else { 0nat });
    assert(reloads(s2, t2) == reloads(s3, t3));
    assert(reloads(s1, t1) == reloads(s2, t2));
    assert(actions_of(s4, t4) =~= Seq::<Action>::empty());
    assert(actions_of(s3, t3) =~= seq![s4.awaiting]);
    assert(actions_of(s2, t2) =~= seq![Action::FetchRemoteHead, s4.awaiting]);
    assert(actions_of(s1, t1) =~= seq![Action::ReadLocalHead, Action::FetchRemoteHead, s4.awaiting]);
    assert(actions_of(s, tick) =~= seq![
        Action::PollProcess,
        Action::ReadLocalHead,
        Action::FetchRemoteHead,
        s4.awaiting,
    ]);
}

} // verus!
