use status_monitor::error::{FetchError, NotifyError};
use status_monitor::poll_loop::{
    Action, Dependency, Event, LoopState, PollLoop, StartupFailure, BACKOFF_SECS, MAX_RETRY,
    REFRESH_INTERVAL_SECS, SEND_TIMEOUT_SECS,
};
use status_monitor::snapshot::{NetworkStatus, StatusSnapshot};
use status_monitor::stamp::with_utc_line;

fn avax_c(withdraw: bool, withdraw_reason: &str) -> StatusSnapshot {
    StatusSnapshot::from_networks(vec![NetworkStatus {
        network_name: "AVAX-C".to_string(),
        deposit_enabled: true,
        deposit_reason: String::new(),
        withdraw_enabled: withdraw,
        withdraw_reason: withdraw_reason.to_string(),
    }])
    .expect("one network has no repeated name")
}

fn send(message: &str) -> Action {
    Action::Send { message: message.to_string(), timeout_secs: Some(SEND_TIMEOUT_SECS) }
}

fn rest() -> Action {
    Action::Sleep { secs: REFRESH_INTERVAL_SECS }
}

/// A loop in the steady cycle that has accepted `accepted` and is about to fetch.
fn polling(accepted: StatusSnapshot) -> PollLoop {
    let (lp, action) = PollLoop::new().step(Event::Fetched(Ok(accepted)));
    assert!(matches!(action, Action::Send { timeout_secs: None, .. }));
    let (lp, action) = lp.step(Event::Sent(Ok(())));
    assert_eq!(action, Action::Fetch);
    assert_eq!(lp.state(), LoopState::Polling);
    lp
}

#[test]
fn constants_of_the_loop() {
    assert_eq!(MAX_RETRY, 5);
    assert_eq!(REFRESH_INTERVAL_SECS, 60);
    assert_eq!(BACKOFF_SECS, 3600);
    assert_eq!(SEND_TIMEOUT_SECS, 8);
}

#[test]
fn new_loop_waits_for_the_first_fetch() {
    let lp = PollLoop::new();
    assert_eq!(lp.state(), LoopState::Starting);
    assert_eq!(lp.pending_action(), Action::Fetch);
    assert!(lp.accepted().is_none());
    assert_eq!(lp.source_failure_count(), 0);
    assert_eq!(lp.sink_failure_count(), 0);
}

#[test]
fn startup_then_one_suspension() {
    let (lp, action) = PollLoop::new().step(Event::Fetched(Ok(avax_c(true, ""))));
    let body = match action {
        Action::Send { message, timeout_secs: None } => message,
        other => panic!("the first report is sent without a time limit, not {:?}", other),
    };
    assert_eq!(body, "Network: AVAX-C\nDeposit available\nWithdraw available");
    assert_eq!(
        with_utc_line(&body, "2024-05-06 07:08:09.000123"),
        "Network: AVAX-C\nDeposit available\nWithdraw available\n2024-05-06 07:08:09 UTC"
    );
    assert_eq!(lp.state(), LoopState::Starting);
    assert!(lp.accepted().is_none());

    let (lp, action) = lp.step(Event::Sent(Ok(())));
    assert_eq!(action, Action::Fetch);
    assert_eq!(lp.state(), LoopState::Polling);
    assert_eq!(lp.accepted(), Some(&avax_c(true, "")));

    let (lp, action) = lp.step(Event::Fetched(Ok(avax_c(false, "maintenance"))));
    let body = match action {
        Action::Send { message, timeout_secs } => {
            assert_eq!(timeout_secs, Some(8));
            message
        }
        other => panic!("a change is sent, not {:?}", other),
    };
    assert_eq!(body, "Withdraw [SUSPENDED]");
    assert_eq!(
        with_utc_line(&body, "2024-05-06 07:09:09.5"),
        "Withdraw [SUSPENDED]\n2024-05-06 07:09:09 UTC"
    );
    assert_eq!(lp.accepted(), Some(&avax_c(true, "")));

    let (lp, action) = lp.step(Event::Sent(Ok(())));
    assert_eq!(action, rest());
    assert_eq!(lp.accepted(), Some(&avax_c(false, "maintenance")));
    assert_eq!(lp.sink_failure_count(), 0);

    let (lp, action) = lp.step(Event::Elapsed);
    assert_eq!(action, Action::Fetch);
    assert_eq!(lp.state(), LoopState::Polling);
}

#[test]
fn failed_send_keeps_the_accepted_snapshot() {
    let lp = polling(avax_c(true, ""));
    let (lp, action) = lp.step(Event::Fetched(Ok(avax_c(false, "maintenance"))));
    assert_eq!(action, send("Withdraw [SUSPENDED]"));

    let (lp, action) = lp.step(Event::Sent(Err(NotifyError::Timeout)));
    assert_eq!(action, rest());
    assert_eq!(lp.accepted(), Some(&avax_c(true, "")));
    assert_eq!(lp.sink_failure_count(), 1);

    let (lp, action) = lp.step(Event::Elapsed);
    assert_eq!(action, Action::Fetch);

    let (lp, action) = lp.step(Event::Fetched(Ok(avax_c(false, "maintenance"))));
    assert_eq!(action, send("Withdraw [SUSPENDED]"));

    let (lp, action) = lp.step(Event::Sent(Err(NotifyError::DeliveryFailed)));
    assert_eq!(action, rest());
    assert_eq!(lp.accepted(), Some(&avax_c(true, "")));
    assert_eq!(lp.sink_failure_count(), 2);

    let (lp, _) = lp.step(Event::Elapsed);
    let (lp, action) = lp.step(Event::Fetched(Ok(avax_c(false, "maintenance"))));
    assert_eq!(action, send("Withdraw [SUSPENDED]"));
    let (lp, action) = lp.step(Event::Sent(Ok(())));
    assert_eq!(action, rest());
    assert_eq!(lp.accepted(), Some(&avax_c(false, "maintenance")));
    assert_eq!(lp.sink_failure_count(), 0);
}

#[test]
fn failed_send_is_superseded_by_what_is_fetched_next() {
    let lp = polling(avax_c(true, ""));
    let (lp, _) = lp.step(Event::Fetched(Ok(avax_c(false, "maintenance"))));
    let (lp, _) = lp.step(Event::Sent(Err(NotifyError::Timeout)));
    let (lp, _) = lp.step(Event::Elapsed);

    let (lp, action) = lp.step(Event::Fetched(Ok(avax_c(true, ""))));
    assert_eq!(action, rest());
    assert_eq!(lp.accepted(), Some(&avax_c(true, "")));
    assert_eq!(lp.sink_failure_count(), 1);
}

#[test]
fn unchanged_snapshot_sends_nothing() {
    let lp = polling(avax_c(false, "maintenance"));
    let (lp, action) = lp.step(Event::Fetched(Ok(avax_c(false, "maintenance"))));
    assert_eq!(action, rest());
    assert_eq!(lp.accepted(), Some(&avax_c(false, "maintenance")));
    assert_eq!(lp.source_failure_count(), 0);
}

#[test]
fn five_fetch_failures_bring_on_the_backoff() {
    let errors = [
        FetchError::Transport,
        FetchError::Parse,
        FetchError::AssetNotFound,
        FetchError::Transport,
        FetchError::Transport,
    ];
    let mut lp = polling(avax_c(true, ""));
    for (i, error) in errors.iter().enumerate() {
        let (next, action) = lp.step(Event::Fetched(Err(*error)));
        lp = next;
        assert_eq!(lp.accepted(), Some(&avax_c(true, "")));
        if i < 4 {
            assert_eq!(action, rest());
            assert_eq!(lp.state(), LoopState::Polling);
            assert_eq!(lp.source_failure_count(), i as u32 + 1);
            let (next, action) = lp.step(Event::Elapsed);
            lp = next;
            assert_eq!(action, Action::Fetch);
        } else {
            assert_eq!(action, Action::Backoff { target: Dependency::Source, secs: 3600 });
            assert_eq!(lp.state(), LoopState::BackoffSource);
            assert_eq!(lp.source_failure_count(), 5);
        }
    }
    let (lp, action) = lp.step(Event::Elapsed);
    assert_eq!(action, rest());
    assert_eq!(lp.state(), LoopState::Polling);
    assert_eq!(lp.source_failure_count(), 0);
    let (lp, action) = lp.step(Event::Elapsed);
    assert_eq!(action, Action::Fetch);
    assert_eq!(lp.source_failure_count(), 0);
    assert_eq!(lp.accepted(), Some(&avax_c(true, "")));
}

#[test]
fn successful_fetch_resets_the_source_counter() {
    let mut lp = polling(avax_c(true, ""));
    for _ in 0..4 {
        let (next, _) = lp.step(Event::Fetched(Err(FetchError::Transport)));
        let (next, _) = next.step(Event::Elapsed);
        lp = next;
    }
    assert_eq!(lp.source_failure_count(), 4);
    let (lp, action) = lp.step(Event::Fetched(Ok(avax_c(true, ""))));
    assert_eq!(action, rest());
    assert_eq!(lp.source_failure_count(), 0);
    let (lp, _) = lp.step(Event::Elapsed);
    let (lp, action) = lp.step(Event::Fetched(Err(FetchError::Transport)));
    assert_eq!(action, rest());
    assert_eq!(lp.source_failure_count(), 1);
}

#[test]
fn five_send_failures_bring_on_the_backoff() {
    let mut lp = polling(avax_c(true, ""));
    for i in 0..5u32 {
        let (next, action) = lp.step(Event::Fetched(Ok(avax_c(false, "maintenance"))));
        assert_eq!(action, send("Withdraw [SUSPENDED]"));
        let (next, action) = next.step(Event::Sent(Err(NotifyError::DeliveryFailed)));
        lp = next;
        assert_eq!(lp.sink_failure_count(), i + 1);
        assert_eq!(lp.accepted(), Some(&avax_c(true, "")));
        if i < 4 {
            assert_eq!(action, rest());
            let (next, action) = lp.step(Event::Elapsed);
            lp = next;
            assert_eq!(action, Action::Fetch);
        } else {
            assert_eq!(action, Action::Backoff { target: Dependency::Sink, secs: BACKOFF_SECS });
            assert_eq!(lp.state(), LoopState::BackoffSink);
        }
    }
    let (lp, action) = lp.step(Event::Elapsed);
    assert_eq!(action, rest());
    assert_eq!(lp.state(), LoopState::Polling);
    assert_eq!(lp.sink_failure_count(), 0);
    assert_eq!(lp.accepted(), Some(&avax_c(true, "")));
    let (lp, action) = lp.step(Event::Elapsed);
    assert_eq!(action, Action::Fetch);
    let (_, action) = lp.step(Event::Fetched(Ok(avax_c(false, "maintenance"))));
    assert_eq!(action, send("Withdraw [SUSPENDED]"));
}

#[test]
fn fetch_failures_leave_the_sink_counter_alone() {
    let lp = polling(avax_c(true, ""));
    let (lp, _) = lp.step(Event::Fetched(Ok(avax_c(false, "x"))));
    let (lp, _) = lp.step(Event::Sent(Err(NotifyError::Timeout)));
    let (lp, _) = lp.step(Event::Elapsed);
    let (lp, action) = lp.step(Event::Fetched(Err(FetchError::Transport)));
    assert_eq!(action, rest());
    assert_eq!(lp.sink_failure_count(), 1);
    assert_eq!(lp.source_failure_count(), 1);
}

#[test]
fn first_fetch_failure_ends_the_run() {
    for error in [FetchError::Transport, FetchError::AssetNotFound, FetchError::Parse] {
        let (lp, action) = PollLoop::new().step(Event::Fetched(Err(error)));
        assert_eq!(action, Action::Exit { failure: StartupFailure::Fetch(error) });
        assert_eq!(lp.state(), LoopState::Terminated);
        assert!(lp.accepted().is_none());
    }
}

#[test]
fn first_send_failure_ends_the_run() {
    for error in [NotifyError::Timeout, NotifyError::DeliveryFailed] {
        let (lp, _) = PollLoop::new().step(Event::Fetched(Ok(avax_c(true, ""))));
        let (lp, action) = lp.step(Event::Sent(Err(error)));
        assert_eq!(action, Action::Exit { failure: StartupFailure::Send(error) });
        assert_eq!(lp.state(), LoopState::Terminated);
        assert!(lp.accepted().is_none());
    }
}

#[test]
fn terminated_loop_stays_terminated() {
    let (lp, _) = PollLoop::new().step(Event::Fetched(Err(FetchError::Parse)));
    let exit = Action::Exit { failure: StartupFailure::Fetch(FetchError::Parse) };
    let (lp, action) = lp.step(Event::Elapsed);
    assert_eq!(action, exit);
    let (lp, action) = lp.step(Event::Fetched(Ok(avax_c(true, ""))));
    assert_eq!(action, exit);
    let (lp, action) = lp.step(Event::Sent(Ok(())));
    assert_eq!(action, exit);
    assert_eq!(lp.state(), LoopState::Terminated);
    assert_eq!(lp.pending_action(), exit);
}

#[test]
fn unexpected_event_changes_nothing() {
    let (lp, action) = PollLoop::new().step(Event::Elapsed);
    assert_eq!(action, Action::Fetch);
    let (lp, action) = lp.step(Event::Sent(Ok(())));
    assert_eq!(action, Action::Fetch);
    assert_eq!(lp.state(), LoopState::Starting);

    let (lp, first) = lp.step(Event::Fetched(Ok(avax_c(true, ""))));
    let (lp, action) = lp.step(Event::Fetched(Ok(avax_c(false, "x"))));
    assert_eq!(action, first);
    let (lp, action) = lp.step(Event::Elapsed);
    assert_eq!(action, first);
    assert!(lp.accepted().is_none());

    let (lp, _) = lp.step(Event::Sent(Ok(())));
    let (lp, action) = lp.step(Event::Sent(Err(NotifyError::Timeout)));
    assert_eq!(action, Action::Fetch);
    assert_eq!(lp.sink_failure_count(), 0);
    let (lp, action) = lp.step(Event::Elapsed);
    assert_eq!(action, Action::Fetch);

    let (lp, _) = lp.step(Event::Fetched(Ok(avax_c(false, "x"))));
    let (lp, action) = lp.step(Event::Fetched(Err(FetchError::Transport)));
    assert_eq!(action, send("Withdraw [SUSPENDED]"));
    assert_eq!(lp.source_failure_count(), 0);
    assert_eq!(lp.pending_action(), send("Withdraw [SUSPENDED]"));

    let (lp, _) = lp.step(Event::Sent(Ok(())));
    let (lp, action) = lp.step(Event::Sent(Ok(())));
    assert_eq!(action, rest());
    let (lp, action) = lp.step(Event::Fetched(Ok(avax_c(true, ""))));
    assert_eq!(action, rest());
    assert_eq!(lp.accepted(), Some(&avax_c(false, "x")));
}

#[test]
fn backoff_waits_for_its_end() {
    let mut lp = polling(avax_c(true, ""));
    for _ in 0..4 {
        let (next, _) = lp.step(Event::Fetched(Err(FetchError::Transport)));
        let (next, _) = next.step(Event::Elapsed);
        lp = next;
    }
    let (lp, backoff) = lp.step(Event::Fetched(Err(FetchError::Transport)));
    let (lp, action) = lp.step(Event::Fetched(Ok(avax_c(false, "x"))));
    assert_eq!(action, backoff);
    let (lp, action) = lp.step(Event::Sent(Ok(())));
    assert_eq!(action, backoff);
    assert_eq!(lp.state(), LoopState::BackoffSource);
    assert_eq!(lp.source_failure_count(), MAX_RETRY);
}

#[test]
fn backoff_warnings_name_the_dependency() {
    assert_eq!(Dependency::Source.backoff_warning(), "Too much errors binance api, waiting 1 hour");
    assert_eq!(Dependency::Sink.backoff_warning(), "Too much errors telegram api, waiting 1 hour");
}
