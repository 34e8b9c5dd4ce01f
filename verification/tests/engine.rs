use mittorch::{
    has_drifted, Action, Config, Event, Notice, OutOfTurn, ReconciliationEngine, Severity,
    SupervisionState, EXIT_CLEAN, EXIT_FATAL, SETTLE_SECS,
};

fn config(start: Option<&str>, stop: Option<&str>) -> Config {
    Config {
        account: String::from("octo"),
        repository: String::from("site"),
        branch: String::from("main"),
        token: None,
        interval: 30,
        start_command: start.map(String::from),
        stop_command: stop.map(String::from),
    }
}

/// An engine that has cloned and started and now stands between two ticks.
fn running(stop: Option<&str>) -> ReconciliationEngine {
    let mut engine = ReconciliationEngine::new(&config(Some("./run.sh"), stop));
    assert_eq!(engine.awaiting(), Action::EnsureClone);
    assert_eq!(engine.step(Event::Cloned).unwrap().action, Action::StartProcess);
    assert_eq!(engine.step(Event::Started).unwrap().action, Action::AwaitTick { secs: 30 });
    assert_eq!(engine.state(), SupervisionState::Running);
    engine
}

/// Feeds the events in order and hands back the actions and notices that came out.
fn drive(engine: &mut ReconciliationEngine, events: Vec<Event>) -> (Vec<Action>, Vec<Notice>) {
    let mut actions = Vec::new();
    let mut notices = Vec::new();
    for event in events {
        let step = engine.step(event).unwrap();
        actions.push(step.action);
        notices.extend(step.notices);
    }
    (actions, notices)
}

fn count(actions: &[Action], wanted: Action) -> usize {
    actions.iter().filter(|a| **a == wanted).count()
}

fn hash(text: &str) -> String {
    String::from(text)
}

#[test]
fn new_engine_awaits_the_initial_clone() {
    let engine = ReconciliationEngine::new(&config(Some("./run.sh"), None));
    assert_eq!(engine.state(), SupervisionState::Starting);
    assert_eq!(engine.awaiting(), Action::EnsureClone);
    assert_eq!(engine.local_head(), "");
    assert!(!engine.is_stopped());
}

#[test]
fn startup_clones_then_starts() {
    let mut engine = ReconciliationEngine::new(&config(Some("./run.sh"), None));
    let step = engine.step(Event::Cloned).unwrap();
    assert_eq!(step.action, Action::StartProcess);
    assert_eq!(step.notices, vec![Notice::RepositoryPrepared]);
    assert_eq!(engine.state(), SupervisionState::Starting);
    let step = engine.step(Event::Started).unwrap();
    assert_eq!(step.action, Action::AwaitTick { secs: 30 });
    assert_eq!(step.notices, vec![Notice::ProcessStarted]);
    assert_eq!(engine.state(), SupervisionState::Running);
}

#[test]
fn failed_initial_clone_does_not_stop_startup() {
    let mut engine = ReconciliationEngine::new(&config(Some("./run.sh"), None));
    let step = engine.step(Event::CloneFailed).unwrap();
    assert_eq!(step.action, Action::StartProcess);
    assert_eq!(step.notices, vec![Notice::InitialCloneFailed]);
}

#[test]
fn missing_start_command_is_fatal_at_startup() {
    let mut engine = ReconciliationEngine::new(&config(None, None));
    assert_eq!(engine.awaiting(), Action::EnsureClone);
    let step = engine.step(Event::CloneFailed).unwrap();
    assert_eq!(step.action, Action::Exit { code: EXIT_FATAL });
    assert_ne!(EXIT_FATAL, 0);
    assert_eq!(step.notices, vec![Notice::InitialCloneFailed, Notice::NoStartCommand]);
    assert!(engine.is_stopped());
    // Nothing follows: no second clone, no start.
    assert_eq!(
        engine.step(Event::Cloned).unwrap_err(),
        OutOfTurn { awaiting: Action::Exit { code: EXIT_FATAL } }
    );
    assert_eq!(engine.awaiting(), Action::Exit { code: EXIT_FATAL });
}

#[test]
fn missing_start_command_is_fatal_after_a_good_clone_too() {
    let mut engine = ReconciliationEngine::new(&config(None, Some("./stop.sh")));
    let step = engine.step(Event::Cloned).unwrap();
    assert_eq!(step.action, Action::Exit { code: 1 });
    assert_eq!(step.notices, vec![Notice::RepositoryPrepared, Notice::NoStartCommand]);
    assert_eq!(engine.state(), SupervisionState::Stopped);
}

#[test]
fn failed_first_start_is_fatal() {
    let mut engine = ReconciliationEngine::new(&config(Some("./run.sh"), None));
    engine.step(Event::Cloned).unwrap();
    let step = engine.step(Event::StartFailed).unwrap();
    assert_eq!(step.action, Action::Exit { code: 1 });
    assert_eq!(step.notices, vec![Notice::InitialStartFailed]);
    assert!(engine.is_stopped());
}

#[test]
fn equal_heads_are_a_no_op() {
    let mut engine = running(None);
    let (actions, notices) = drive(
        &mut engine,
        vec![
            Event::TickDue,
            Event::Alive,
            Event::LocalHead(hash("aaaaaaaa")),
            Event::RemoteHead(hash("aaaaaaaa")),
        ],
    );
    assert_eq!(
        actions,
        vec![
            Action::PollProcess,
            Action::ReadLocalHead,
            Action::FetchRemoteHead,
            Action::AwaitTick { secs: 30 },
        ]
    );
    assert_eq!(notices, vec![Notice::NoChanges]);
    assert_eq!(engine.state(), SupervisionState::Running);
}

#[test]
fn equal_heads_over_many_ticks_change_nothing() {
    let mut engine = running(Some("./stop.sh"));
    for round in 0..25 {
        let head = format!("{:040x}", round / 5);
        let (actions, _) = drive(
            &mut engine,
            vec![
                Event::TickDue,
                Event::Alive,
                Event::LocalHead(head.clone()),
                Event::RemoteHead(head),
            ],
        );
        for action in actions {
            assert!(matches!(
                action,
                Action::PollProcess
                    | Action::ReadLocalHead
                    | Action::FetchRemoteHead
                    | Action::AwaitTick { secs: 30 }
            ));
        }
        assert_eq!(engine.state(), SupervisionState::Running);
        assert_eq!(engine.awaiting(), Action::AwaitTick { secs: 30 });
        assert_eq!(engine.local_head(), "");
    }
}

#[test]
fn local_head_is_kept_only_while_the_remote_head_is_fetched() {
    let mut engine = running(None);
    drive(&mut engine, vec![Event::TickDue, Event::Alive]);
    assert_eq!(engine.local_head(), "");
    engine.step(Event::LocalHead(hash("abc123"))).unwrap();
    assert_eq!(engine.awaiting(), Action::FetchRemoteHead);
    assert_eq!(engine.local_head(), "abc123");
    engine.step(Event::RemoteHead(hash("abc123"))).unwrap();
    assert_eq!(engine.local_head(), "");
}

#[test]
fn empty_remote_head_is_inconclusive() {
    let mut engine = running(None);
    let (actions, notices) = drive(
        &mut engine,
        vec![
            Event::TickDue,
            Event::Alive,
            Event::LocalHead(hash("aaaaaaaa")),
            Event::RemoteHead(hash("")),
        ],
    );
    assert_eq!(actions.last(), Some(&Action::AwaitTick { secs: 30 }));
    assert_eq!(notices, vec![Notice::SkippedInvalidHashes]);
    assert_eq!(engine.state(), SupervisionState::Running);
}

#[test]
fn empty_local_head_is_inconclusive() {
    let mut engine = running(None);
    let (actions, notices) = drive(
        &mut engine,
        vec![
            Event::TickDue,
            Event::Alive,
            Event::LocalHead(hash("")),
            Event::RemoteHead(hash("bbbbbbbb")),
        ],
    );
    assert_eq!(actions.last(), Some(&Action::AwaitTick { secs: 30 }));
    assert_eq!(notices, vec![Notice::SkippedInvalidHashes]);
}

#[test]
fn unreadable_local_head_counts_as_empty() {
    let mut engine = running(None);
    let (actions, notices) = drive(
        &mut engine,
        vec![
            Event::TickDue,
            Event::Alive,
            Event::LocalHeadUnreadable,
            Event::RemoteHead(hash("bbbbbbbb")),
        ],
    );
    assert_eq!(
        actions,
        vec![
            Action::PollProcess,
            Action::ReadLocalHead,
            Action::FetchRemoteHead,
            Action::AwaitTick { secs: 30 },
        ]
    );
    assert_eq!(notices, vec![Notice::LocalHeadUnreadable, Notice::SkippedInvalidHashes]);
}

#[test]
fn both_heads_empty_is_inconclusive() {
    let mut engine = running(None);
    let (_, notices) = drive(
        &mut engine,
        vec![
            Event::TickDue,
            Event::Alive,
            Event::LocalHead(hash("")),
            Event::RemoteHead(hash("")),
        ],
    );
    assert_eq!(notices, vec![Notice::SkippedInvalidHashes]);
    assert_eq!(engine.awaiting(), Action::AwaitTick { secs: 30 });
}

#[test]
fn failed_remote_query_skips_the_tick() {
    let mut engine = running(None);
    let (actions, notices) = drive(
        &mut engine,
        vec![
            Event::TickDue,
            Event::Alive,
            Event::LocalHead(hash("aaaaaaaa")),
            Event::RemoteFailed,
        ],
    );
    assert_eq!(actions.last(), Some(&Action::AwaitTick { secs: 30 }));
    assert_eq!(notices, vec![Notice::RemoteQueryFailed]);
}

#[test]
fn missing_checkout_is_cloned_and_the_tick_ends() {
    let mut engine = running(None);
    let (actions, notices) = drive(
        &mut engine,
        vec![Event::TickDue, Event::Alive, Event::CheckoutMissing, Event::Cloned],
    );
    assert_eq!(
        actions,
        vec![
            Action::PollProcess,
            Action::ReadLocalHead,
            Action::EnsureClone,
            Action::AwaitTick { secs: 30 },
        ]
    );
    assert_eq!(notices, vec![Notice::CheckoutMissing, Notice::RepositoryRecloned]);
    assert_eq!(engine.state(), SupervisionState::Running);
}

#[test]
fn failed_retry_clone_waits_for_the_next_tick() {
    let mut engine = running(None);
    let (actions, notices) = drive(
        &mut engine,
        vec![Event::TickDue, Event::Alive, Event::CheckoutMissing, Event::CloneFailed],
    );
    assert_eq!(actions.last(), Some(&Action::AwaitTick { secs: 30 }));
    assert_eq!(notices, vec![Notice::CheckoutMissing, Notice::RetryCloneFailed]);
}

#[test]
fn unknown_liveness_skips_the_tick() {
    let mut engine = running(None);
    let (actions, notices) = drive(&mut engine, vec![Event::TickDue, Event::LivenessUnknown]);
    assert_eq!(actions, vec![Action::PollProcess, Action::AwaitTick { secs: 30 }]);
    assert_eq!(notices, vec![Notice::LivenessUnknown]);
}

#[test]
fn crash_without_update_restarts_once_and_never_clones() {
    let mut engine = running(None);
    let (actions, notices) = drive(
        &mut engine,
        vec![
            Event::TickDue,
            Event::Exited(Some(137)),
            Event::LocalHead(hash("cccccccc")),
            Event::RemoteHead(hash("cccccccc")),
            Event::Started,
        ],
    );
    assert_eq!(
        actions,
        vec![
            Action::PollProcess,
            Action::ReadLocalHead,
            Action::FetchRemoteHead,
            Action::StartProcess,
            Action::AwaitTick { secs: 30 },
        ]
    );
    assert_eq!(count(&actions, Action::StartProcess), 1);
    assert_eq!(count(&actions, Action::EnsureClone), 0);
    assert_eq!(count(&actions, Action::RemoveCheckout), 0);
    assert_eq!(
        notices,
        vec![
            Notice::ProcessExited { code: Some(137) },
            Notice::NoNewCommits,
            Notice::Restarted,
        ]
    );
    assert_eq!(engine.state(), SupervisionState::Running);
}

#[test]
fn crash_with_update_removes_clones_and_restarts_once() {
    let mut engine = running(None);
    drive(&mut engine, vec![Event::TickDue]);
    let step = engine.step(Event::Exited(Some(1))).unwrap();
    assert_eq!(step.notices, vec![Notice::ProcessExited { code: Some(1) }]);
    assert_eq!(engine.state(), SupervisionState::CrashRecovered);
    let (actions, notices) = drive(
        &mut engine,
        vec![
            Event::LocalHead(hash("aaaaaaaa")),
            Event::RemoteHead(hash("bbbbbbbb")),
            Event::Removed,
            Event::Cloned,
            Event::Started,
        ],
    );
    assert_eq!(
        actions,
        vec![
            Action::FetchRemoteHead,
            Action::RemoveCheckout,
            Action::EnsureClone,
            Action::StartProcess,
            Action::AwaitTick { secs: 30 },
        ]
    );
    assert_eq!(count(&actions, Action::RemoveCheckout), 1);
    assert_eq!(count(&actions, Action::EnsureClone), 1);
    assert_eq!(count(&actions, Action::StartProcess), 1);
    assert_eq!(
        notices,
        vec![Notice::UpdateAvailable, Notice::RepositoryUpdated, Notice::Restarted]
    );
    assert_eq!(engine.state(), SupervisionState::Running);
}

#[test]
fn crash_recovery_restarts_even_when_the_reclone_fails() {
    let mut engine = running(None);
    let (actions, notices) = drive(
        &mut engine,
        vec![
            Event::TickDue,
            Event::Exited(None),
            Event::LocalHead(hash("aaaaaaaa")),
            Event::RemoteHead(hash("bbbbbbbb")),
            Event::Removed,
            Event::CloneFailed,
            Event::Started,
        ],
    );
    assert_eq!(actions[5], Action::StartProcess);
    assert_eq!(
        notices,
        vec![
            Notice::ProcessExited { code: None },
            Notice::UpdateAvailable,
            Notice::RecloneFailed,
            Notice::Restarted,
        ]
    );
}

#[test]
fn crash_recovery_restarts_when_cleanup_fails() {
    let mut engine = running(None);
    let (actions, notices) = drive(
        &mut engine,
        vec![
            Event::TickDue,
            Event::Exited(Some(2)),
            Event::LocalHead(hash("aaaaaaaa")),
            Event::RemoteHead(hash("bbbbbbbb")),
            Event::RemoveFailed,
        ],
    );
    assert_eq!(actions.last(), Some(&Action::StartProcess));
    assert_eq!(count(&actions, Action::EnsureClone), 0);
    assert_eq!(notices.last(), Some(&Notice::CleanupFailed));
}

#[test]
fn crash_recovery_restarts_when_the_checkout_cannot_be_opened() {
    let mut engine = running(None);
    let (actions, notices) = drive(
        &mut engine,
        vec![Event::TickDue, Event::Exited(Some(1)), Event::CheckoutMissing],
    );
    assert_eq!(
        actions,
        vec![Action::PollProcess, Action::ReadLocalHead, Action::StartProcess]
    );
    assert_eq!(notices.last(), Some(&Notice::CrashCheckoutUnreadable));
}

#[test]
fn crash_recovery_restarts_when_the_remote_query_fails() {
    let mut engine = running(None);
    let (actions, notices) = drive(
        &mut engine,
        vec![
            Event::TickDue,
            Event::Exited(Some(1)),
            Event::LocalHead(hash("aaaaaaaa")),
            Event::RemoteFailed,
        ],
    );
    assert_eq!(actions.last(), Some(&Action::StartProcess));
    assert_eq!(notices.last(), Some(&Notice::RemoteQueryFailed));
}

#[test]
fn crash_recovery_ignores_empty_hashes() {
    let mut engine = running(None);
    let (actions, _) = drive(
        &mut engine,
        vec![
            Event::TickDue,
            Event::Exited(Some(1)),
            Event::LocalHeadUnreadable,
            Event::RemoteHead(hash("bbbbbbbb")),
        ],
    );
    assert_eq!(actions.last(), Some(&Action::StartProcess));
    assert_eq!(count(&actions, Action::RemoveCheckout), 0);
}

#[test]
fn failed_restart_is_retried_on_the_next_tick() {
    let mut engine = running(None);
    let crash = |engine: &mut ReconciliationEngine| {
        drive(
            engine,
            vec![
                Event::TickDue,
                Event::Exited(Some(1)),
                Event::LocalHead(hash("aaaaaaaa")),
                Event::RemoteHead(hash("aaaaaaaa")),
                Event::StartFailed,
            ],
        )
    };
    let (actions, notices) = crash(&mut engine);
    assert_eq!(actions.last(), Some(&Action::AwaitTick { secs: 30 }));
    assert_eq!(notices.last(), Some(&Notice::RestartFailed));
    assert!(!engine.is_stopped());
    let (actions, _) = crash(&mut engine);
    assert_eq!(count(&actions, Action::StartProcess), 1);
    assert_eq!(engine.state(), SupervisionState::Running);
}

#[test]
fn drift_reloads_through_the_stop_command_in_order() {
    let mut engine = running(Some("./stop.sh"));
    let (actions, notices) = drive(
        &mut engine,
        vec![
            Event::TickDue,
            Event::Alive,
            Event::LocalHead(hash("aaaaaaaa")),
            Event::RemoteHead(hash("bbbbbbbb")),
        ],
    );
    assert_eq!(actions.last(), Some(&Action::RunStopCommand));
    assert_eq!(notices, vec![Notice::ChangeDetected]);
    assert_eq!(engine.state(), SupervisionState::Reloading);
    let (actions, notices) = drive(
        &mut engine,
        vec![
            Event::StopCommandDone,
            Event::Settled,
            Event::Removed,
            Event::Cloned,
            Event::Started,
        ],
    );
    assert_eq!(
        actions,
        vec![
            Action::Settle { secs: SETTLE_SECS },
            Action::RemoveCheckout,
            Action::EnsureClone,
            Action::StartProcess,
            Action::AwaitTick { secs: 30 },
        ]
    );
    assert_eq!(SETTLE_SECS, 1);
    assert_eq!(notices, vec![Notice::RemovingCheckout, Notice::Reloaded]);
    assert_eq!(engine.state(), SupervisionState::Running);
}

#[test]
fn reload_refuses_steps_out_of_order() {
    let mut engine = running(Some("./stop.sh"));
    drive(
        &mut engine,
        vec![
            Event::TickDue,
            Event::Alive,
            Event::LocalHead(hash("aaaaaaaa")),
            Event::RemoteHead(hash("bbbbbbbb")),
        ],
    );
    // The stop command has not finished: nothing else is accepted.
    for early in [Event::Removed, Event::Cloned, Event::Started, Event::Settled, Event::Killed] {
        assert_eq!(
            engine.step(early).unwrap_err(),
            OutOfTurn { awaiting: Action::RunStopCommand }
        );
    }
    assert_eq!(engine.state(), SupervisionState::Reloading);
    assert_eq!(engine.awaiting(), Action::RunStopCommand);
    engine.step(Event::StopCommandDone).unwrap();
    assert!(engine.step(Event::Removed).is_err());
    engine.step(Event::Settled).unwrap();
    assert!(engine.step(Event::Cloned).is_err());
    engine.step(Event::Removed).unwrap();
    assert!(engine.step(Event::Started).is_err());
    engine.step(Event::Cloned).unwrap();
    assert_eq!(engine.awaiting(), Action::StartProcess);
}

#[test]
fn drift_without_stop_command_kills() {
    let mut engine = running(None);
    let (actions, notices) = drive(
        &mut engine,
        vec![
            Event::TickDue,
            Event::Alive,
            Event::LocalHead(hash("aaaaaaaa")),
            Event::RemoteHead(hash("bbbbbbbb")),
            Event::Killed,
            Event::Removed,
            Event::Cloned,
            Event::Started,
        ],
    );
    assert_eq!(
        actions,
        vec![
            Action::PollProcess,
            Action::ReadLocalHead,
            Action::FetchRemoteHead,
            Action::KillProcess,
            Action::RemoveCheckout,
            Action::EnsureClone,
            Action::StartProcess,
            Action::AwaitTick { secs: 30 },
        ]
    );
    assert_eq!(
        notices,
        vec![Notice::ChangeDetected, Notice::RemovingCheckout, Notice::Reloaded]
    );
}

#[test]
fn each_distinct_pair_reloads_exactly_once() {
    let pairs = [("aaaaaaaa", "bbbbbbbb"), ("bbbbbbbb", "cccccccc"), ("a", "b"), ("x", "xy")];
    let mut engine = running(None);
    for (local, remote) in pairs {
        let (actions, _) = drive(
            &mut engine,
            vec![
                Event::TickDue,
                Event::Alive,
                Event::LocalHead(hash(local)),
                Event::RemoteHead(hash(remote)),
                Event::Killed,
                Event::Removed,
                Event::Cloned,
                Event::Started,
            ],
        );
        assert_eq!(count(&actions, Action::KillProcess), 1);
        assert_eq!(count(&actions, Action::RemoveCheckout), 1);
        assert_eq!(count(&actions, Action::EnsureClone), 1);
        assert_eq!(count(&actions, Action::StartProcess), 1);
        // The clone has caught up: the same head on both sides reloads nothing.
        let (actions, _) = drive(
            &mut engine,
            vec![
                Event::TickDue,
                Event::Alive,
                Event::LocalHead(hash(remote)),
                Event::RemoteHead(hash(remote)),
            ],
        );
        assert_eq!(count(&actions, Action::KillProcess), 0);
        assert_eq!(count(&actions, Action::StartProcess), 0);
    }
}

#[test]
fn reload_gives_up_when_cleanup_fails() {
    let mut engine = running(None);
    let (actions, notices) = drive(
        &mut engine,
        vec![
            Event::TickDue,
            Event::Alive,
            Event::LocalHead(hash("aaaaaaaa")),
            Event::RemoteHead(hash("bbbbbbbb")),
            Event::Killed,
            Event::RemoveFailed,
        ],
    );
    assert_eq!(actions.last(), Some(&Action::AwaitTick { secs: 30 }));
    assert_eq!(count(&actions, Action::EnsureClone), 0);
    assert_eq!(count(&actions, Action::StartProcess), 0);
    assert_eq!(notices.last(), Some(&Notice::CleanupFailed));
    assert_eq!(engine.state(), SupervisionState::Running);
}

#[test]
fn reload_gives_up_without_restart_when_the_clone_fails() {
    let mut engine = running(None);
    let (actions, notices) = drive(
        &mut engine,
        vec![
            Event::TickDue,
            Event::Alive,
            Event::LocalHead(hash("aaaaaaaa")),
            Event::RemoteHead(hash("bbbbbbbb")),
            Event::Killed,
            Event::Removed,
            Event::CloneFailed,
        ],
    );
    assert_eq!(actions.last(), Some(&Action::AwaitTick { secs: 30 }));
    assert_eq!(count(&actions, Action::StartProcess), 0);
    assert_eq!(notices.last(), Some(&Notice::RecloneFailed));
}

#[test]
fn reload_gives_up_when_the_stop_command_cannot_run() {
    let mut engine = running(Some("./stop.sh"));
    let (actions, notices) = drive(
        &mut engine,
        vec![
            Event::TickDue,
            Event::Alive,
            Event::LocalHead(hash("aaaaaaaa")),
            Event::RemoteHead(hash("bbbbbbbb")),
            Event::StopCommandFailed,
        ],
    );
    assert_eq!(actions.last(), Some(&Action::AwaitTick { secs: 30 }));
    assert_eq!(count(&actions, Action::RemoveCheckout), 0);
    assert_eq!(notices.last(), Some(&Notice::StopCommandFailed));
}

#[test]
fn failed_start_after_reload_leaves_the_loop_running() {
    let mut engine = running(None);
    let (actions, notices) = drive(
        &mut engine,
        vec![
            Event::TickDue,
            Event::Alive,
            Event::LocalHead(hash("aaaaaaaa")),
            Event::RemoteHead(hash("bbbbbbbb")),
            Event::Killed,
            Event::Removed,
            Event::Cloned,
            Event::StartFailed,
        ],
    );
    assert_eq!(actions.last(), Some(&Action::AwaitTick { secs: 30 }));
    assert_eq!(notices.last(), Some(&Notice::RestartFailed));
    assert!(!engine.is_stopped());
}

#[test]
fn shutdown_kills_once_and_exits_cleanly() {
    let mut engine = running(Some("./stop.sh"));
    let (actions, notices) = drive(&mut engine, vec![Event::ShutdownRequested]);
    assert_eq!(actions, vec![Action::KillProcess]);
    assert_eq!(notices, vec![Notice::ShuttingDown]);
    assert_eq!(engine.state(), SupervisionState::Draining);
    // No tick runs while draining.
    assert!(engine.step(Event::TickDue).is_err());
    let step = engine.step(Event::Killed).unwrap();
    assert_eq!(step.action, Action::Exit { code: EXIT_CLEAN });
    assert_eq!(EXIT_CLEAN, 0);
    assert_eq!(step.notices, vec![Notice::ExitedCleanly]);
    assert_eq!(engine.state(), SupervisionState::Stopped);
    for late in [Event::TickDue, Event::Killed, Event::ShutdownRequested, Event::Alive] {
        assert_eq!(
            engine.step(late).unwrap_err(),
            OutOfTurn { awaiting: Action::Exit { code: 0 } }
        );
    }
}

#[test]
fn shutdown_is_not_taken_inside_a_tick() {
    let mut engine = running(None);
    engine.step(Event::TickDue).unwrap();
    assert_eq!(
        engine.step(Event::ShutdownRequested).unwrap_err(),
        OutOfTurn { awaiting: Action::PollProcess }
    );
    engine.step(Event::Alive).unwrap();
    assert!(engine.step(Event::ShutdownRequested).is_err());
    assert_eq!(engine.awaiting(), Action::ReadLocalHead);
}

#[test]
fn event_out_of_turn_changes_nothing() {
    let mut engine = running(None);
    assert_eq!(
        engine.step(Event::RemoteHead(hash("bbbbbbbb"))).unwrap_err(),
        OutOfTurn { awaiting: Action::AwaitTick { secs: 30 } }
    );
    assert_eq!(engine.state(), SupervisionState::Running);
    assert_eq!(engine.awaiting(), Action::AwaitTick { secs: 30 });
    assert_eq!(engine.step(Event::TickDue).unwrap().action, Action::PollProcess);
}

#[test]
fn interval_comes_from_the_configuration() {
    let mut cfg = config(Some("./run.sh"), None);
    cfg.interval = 0;
    let mut engine = ReconciliationEngine::new(&cfg);
    engine.step(Event::Cloned).unwrap();
    assert_eq!(engine.step(Event::Started).unwrap().action, Action::AwaitTick { secs: 0 });
    cfg.interval = u64::MAX;
    let mut engine = ReconciliationEngine::new(&cfg);
    engine.step(Event::Cloned).unwrap();
    assert_eq!(
        engine.step(Event::Started).unwrap().action,
        Action::AwaitTick { secs: u64::MAX }
    );
}

#[test]
fn drift_needs_two_distinct_non_empty_hashes() {
    let drift = |a: &str, b: &str| has_drifted(&hash(a), &hash(b));
    assert!(drift("aaaaaaaa", "bbbbbbbb"));
    assert!(drift("a", "aa"));
    assert!(drift("A", "a"));
    assert!(!drift("aaaaaaaa", "aaaaaaaa"));
    assert!(!drift("", "bbbbbbbb"));
    assert!(!drift("aaaaaaaa", ""));
    assert!(!drift("", ""));
}

#[test]
fn notices_carry_their_severity() {
    assert_eq!(Notice::RepositoryPrepared.severity(), Severity::Success);
    assert_eq!(Notice::Reloaded.severity(), Severity::Success);
    assert_eq!(Notice::ExitedCleanly.severity(), Severity::Success);
    assert_eq!(Notice::NoChanges.severity(), Severity::Info);
    assert_eq!(Notice::ChangeDetected.severity(), Severity::Info);
    assert_eq!(Notice::ProcessExited { code: Some(137) }.severity(), Severity::Warning);
    assert_eq!(Notice::SkippedInvalidHashes.severity(), Severity::Warning);
    assert_eq!(Notice::CheckoutMissing.severity(), Severity::Warning);
    assert_eq!(Notice::CleanupFailed.severity(), Severity::Failure);
    assert_eq!(Notice::RemoteQueryFailed.severity(), Severity::Failure);
    assert_eq!(Notice::CannotRestart.severity(), Severity::Failure);
}

#[test]
fn only_startup_notices_are_fatal() {
    assert!(Notice::NoStartCommand.is_fatal());
    assert!(Notice::InitialStartFailed.is_fatal());
    assert!(!Notice::InitialCloneFailed.is_fatal());
    assert!(!Notice::RestartFailed.is_fatal());
    assert!(!Notice::CannotRestart.is_fatal());
    assert!(!Notice::RecloneFailed.is_fatal());
}

#[test]
fn every_failure_is_reported_with_an_alarm() {
    // Each failure event at the place where the engine accepts it.
    let cases: Vec<(Vec<Event>, Event)> = vec![
        (vec![Event::TickDue], Event::LivenessUnknown),
        (vec![Event::TickDue, Event::Alive], Event::CheckoutMissing),
        (vec![Event::TickDue, Event::Alive], Event::LocalHeadUnreadable),
        (vec![Event::TickDue, Event::Alive, Event::CheckoutMissing], Event::CloneFailed),
        (
            vec![Event::TickDue, Event::Alive, Event::LocalHead(hash("a"))],
            Event::RemoteFailed,
        ),
        (vec![Event::TickDue, Event::Exited(Some(1))], Event::CheckoutMissing),
        (
            vec![
                Event::TickDue,
                Event::Alive,
                Event::LocalHead(hash("a")),
                Event::RemoteHead(hash("b")),
                Event::Killed,
            ],
            Event::RemoveFailed,
        ),
    ];
    for (lead, failure) in cases {
        let mut engine = running(None);
        drive(&mut engine, lead);
        let step = engine.step(failure).unwrap();
        let first = step.notices[0].severity();
        assert!(first == Severity::Warning || first == Severity::Failure);
    }
}
