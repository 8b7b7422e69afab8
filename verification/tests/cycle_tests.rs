use repo_sync::config::{Config, Settings};
use repo_sync::cycle::{step, Action, Event, LoopState, Notice, Phase, RemoteError, Step};
use repo_sync::error::ErrorKind;

fn config(interval: i64) -> Config {
    Config::from_settings(Settings {
        owner: Some(String::from("octo")),
        repo: Some(String::from("widgets")),
        target_branch: None,
        access_token: None,
        path: Some(String::from("/srv/widgets")),
        check_interval_seconds: Some(interval),
    })
    .unwrap()
}

fn quiet(action: Action) -> Option<Step> {
    Some(Step { action, notice: Notice::Quiet })
}

fn advance_to_reading(config: &Config, state: &mut LoopState, remote: &str, now: u64) {
    assert_eq!(step(config, state, Event::Woke, now), quiet(Action::OpenLocal));
    assert_eq!(step(config, state, Event::LocalOpened(true), now), quiet(Action::FetchRemote));
    assert_eq!(
        step(config, state, Event::RemoteFetched(Ok(String::from(remote))), now),
        quiet(Action::ReadLocal)
    );
}

#[test]
fn fresh_state_starts_between_cycles() {
    let state = LoopState::new(1_000);
    assert!(matches!(state.phase, Phase::Sleeping));
    assert_eq!(state.last_change_time, 1_000);
    assert_eq!(state.backoff_attempt, 0);
}

#[test]
fn equal_heads_do_not_pull() {
    let config = config(30);
    let mut state = LoopState::new(1_000);
    advance_to_reading(&config, &mut state, "abc123", 1_075);
    let answer = step(&config, &mut state, Event::LocalRead(Some(String::from("abc123"))), 1_075);
    assert_eq!(
        answer,
        Some(Step {
            action: Action::Sleep(30),
            notice: Notice::Unchanged { since: 1_000, elapsed: 75 },
        })
    );
    assert!(matches!(state.phase, Phase::Sleeping));
    assert_eq!(state.last_change_time, 1_000);
    assert_eq!(state.backoff_attempt, 0);
}

#[test]
fn different_heads_pull_once() {
    let config = config(30);
    let mut state = LoopState::new(1_000);
    advance_to_reading(&config, &mut state, "def456", 1_010);
    let answer = step(&config, &mut state, Event::LocalRead(Some(String::from("abc123"))), 1_010);
    assert_eq!(answer, Some(Step { action: Action::Pull, notice: Notice::ChangesDetected }));
    assert!(matches!(state.phase, Phase::Pulling));
    assert_eq!(state.last_change_time, 1_000);
    let answer = step(&config, &mut state, Event::PullFinished(true), 1_012);
    assert_eq!(answer, Some(Step { action: Action::Sleep(30), notice: Notice::Pulled }));
    assert!(matches!(state.phase, Phase::Sleeping));
    assert_eq!(state.last_change_time, 1_012);
    assert_eq!(state.backoff_attempt, 0);
    // No second pull in the same cycle.
    assert_eq!(step(&config, &mut state, Event::PullFinished(true), 1_013), None);
    // The next cycle compares again; after the pull the heads agree.
    advance_to_reading(&config, &mut state, "def456", 1_042);
    let answer = step(&config, &mut state, Event::LocalRead(Some(String::from("def456"))), 1_042);
    assert_eq!(
        answer,
        Some(Step {
            action: Action::Sleep(30),
            notice: Notice::Unchanged { since: 1_012, elapsed: 30 },
        })
    );
}

#[test]
fn failed_pull_is_reported_and_the_loop_goes_on() {
    let config = config(30);
    let mut state = LoopState::new(1_000);
    advance_to_reading(&config, &mut state, "def456", 1_010);
    step(&config, &mut state, Event::LocalRead(Some(String::from("abc123"))), 1_010);
    let answer = step(&config, &mut state, Event::PullFinished(false), 1_011);
    assert_eq!(
        answer,
        Some(Step {
            action: Action::Sleep(30),
            notice: Notice::Failed(ErrorKind::SyncActionFailed),
        })
    );
    assert_eq!(state.last_change_time, 1_011);
    assert_eq!(state.backoff_attempt, 0);
    // Still diverged on the next cycle: the pull is tried again.
    advance_to_reading(&config, &mut state, "def456", 1_041);
    let answer = step(&config, &mut state, Event::LocalRead(Some(String::from("abc123"))), 1_041);
    assert_eq!(answer, Some(Step { action: Action::Pull, notice: Notice::ChangesDetected }));
}

#[test]
fn three_failed_fetches_back_off_then_reset() {
    let config = config(30);
    let mut state = LoopState::new(1_000);
    let mut sleeps = Vec::new();
    for (i, error) in
        [RemoteError::Unavailable, RemoteError::Protocol, RemoteError::Unavailable].into_iter().enumerate()
    {
        assert_eq!(step(&config, &mut state, Event::Woke, 1_000), quiet(Action::OpenLocal));
        assert_eq!(
            step(&config, &mut state, Event::LocalOpened(true), 1_000),
            quiet(Action::FetchRemote)
        );
        let answer = step(&config, &mut state, Event::RemoteFetched(Err(error)), 1_000).unwrap();
        assert_eq!(answer.notice, Notice::Failed(error.kind()));
        match answer.action {
            Action::Sleep(seconds) => sleeps.push(seconds),
            other => panic!("expected a sleep, got {:?}", other),
        }
        assert_eq!(state.backoff_attempt, i as u32 + 1);
        assert!(matches!(state.phase, Phase::Sleeping));
    }
    assert_eq!(sleeps, vec![1, 2, 4]);
    advance_to_reading(&config, &mut state, "abc123", 1_007);
    assert_eq!(state.backoff_attempt, 3);
    let answer = step(&config, &mut state, Event::LocalRead(Some(String::from("abc123"))), 1_007);
    assert_eq!(
        answer,
        Some(Step {
            action: Action::Sleep(30),
            notice: Notice::Unchanged { since: 1_000, elapsed: 7 },
        })
    );
    assert_eq!(state.backoff_attempt, 0);
}

#[test]
fn remote_failures_are_reported_by_kind() {
    assert_eq!(RemoteError::Unavailable.kind(), ErrorKind::RemoteUnavailable);
    assert_eq!(RemoteError::Protocol.kind(), ErrorKind::RemoteProtocolError);
}

#[test]
fn unopenable_repository_waits_the_interval() {
    let config = config(45);
    let mut state = LoopState::new(1_000);
    state.backoff_attempt = 2;
    assert_eq!(step(&config, &mut state, Event::Woke, 1_001), quiet(Action::OpenLocal));
    let answer = step(&config, &mut state, Event::LocalOpened(false), 1_001);
    assert_eq!(
        answer,
        Some(Step {
            action: Action::Sleep(45),
            notice: Notice::Failed(ErrorKind::LocalRepoUnavailable),
        })
    );
    assert!(matches!(state.phase, Phase::Sleeping));
    assert_eq!(state.backoff_attempt, 2);
    assert_eq!(state.last_change_time, 1_000);
    // The loop continues on the next tick.
    assert_eq!(step(&config, &mut state, Event::Woke, 1_046), quiet(Action::OpenLocal));
}

#[test]
fn unreadable_local_head_backs_off() {
    let config = config(30);
    let mut state = LoopState::new(1_000);
    state.backoff_attempt = 4;
    advance_to_reading(&config, &mut state, "abc123", 1_001);
    let answer = step(&config, &mut state, Event::LocalRead(None), 1_001);
    assert_eq!(
        answer,
        Some(Step {
            action: Action::Sleep(16),
            notice: Notice::Failed(ErrorKind::LocalRepoUnavailable),
        })
    );
    assert_eq!(state.backoff_attempt, 5);
    assert_eq!(state.last_change_time, 1_000);
}

#[test]
fn divergence_resets_whatever_the_counter_was() {
    for prior in [0u32, 1, 5, 6, 7, 1_000, u32::MAX] {
        let config = config(30);
        let mut state = LoopState::new(1_000);
        state.backoff_attempt = prior;
        advance_to_reading(&config, &mut state, "def456", 2_000);
        step(&config, &mut state, Event::LocalRead(Some(String::from("abc123"))), 2_000);
        assert_eq!(state.backoff_attempt, prior);
        step(&config, &mut state, Event::PullFinished(true), 2_003);
        assert_eq!(state.last_change_time, 2_003);
        assert_eq!(state.backoff_attempt, 0);
    }
}

#[test]
fn counter_stops_at_its_largest_value() {
    let config = config(30);
    let mut state = LoopState::new(1_000);
    state.backoff_attempt = u32::MAX - 1;
    for _ in 0..3 {
        step(&config, &mut state, Event::Woke, 1_000);
        step(&config, &mut state, Event::LocalOpened(true), 1_000);
        let answer = step(
            &config,
            &mut state,
            Event::RemoteFetched(Err(RemoteError::Unavailable)),
            1_000,
        );
        assert_eq!(
            answer,
            Some(Step {
                action: Action::Sleep(64),
                notice: Notice::Failed(ErrorKind::RemoteUnavailable),
            })
        );
    }
    assert_eq!(state.backoff_attempt, u32::MAX);
}

#[test]
fn elapsed_is_zero_when_the_clock_went_back() {
    let config = config(30);
    let mut state = LoopState::new(1_000);
    advance_to_reading(&config, &mut state, "abc123", 900);
    let answer = step(&config, &mut state, Event::LocalRead(Some(String::from("abc123"))), 900);
    assert_eq!(
        answer,
        Some(Step {
            action: Action::Sleep(30),
            notice: Notice::Unchanged { since: 1_000, elapsed: 0 },
        })
    );
}

#[test]
fn identifiers_are_compared_exactly() {
    for (remote, local) in [("abc123", "ABC123"), ("abc123", "abc123 "), ("abc", "abc1"), ("", "a")]
    {
        let config = config(30);
        let mut state = LoopState::new(1_000);
        advance_to_reading(&config, &mut state, remote, 1_000);
        let answer = step(&config, &mut state, Event::LocalRead(Some(String::from(local))), 1_000);
        assert_eq!(answer, Some(Step { action: Action::Pull, notice: Notice::ChangesDetected }));
    }
    let config = config(30);
    let mut state = LoopState::new(1_000);
    advance_to_reading(&config, &mut state, "", 1_000);
    let answer = step(&config, &mut state, Event::LocalRead(Some(String::new())), 1_000).unwrap();
    assert_eq!(answer.action, Action::Sleep(30));
}

#[test]
fn events_out_of_turn_change_nothing() {
    let config = config(30);
    let mut state = LoopState::new(1_000);
    state.backoff_attempt = 3;
    assert_eq!(step(&config, &mut state, Event::LocalOpened(true), 1_001), None);
    assert_eq!(step(&config, &mut state, Event::PullFinished(true), 1_001), None);
    assert_eq!(
        step(&config, &mut state, Event::RemoteFetched(Ok(String::from("abc123"))), 1_001),
        None
    );
    assert_eq!(step(&config, &mut state, Event::LocalRead(None), 1_001), None);
    assert!(matches!(state.phase, Phase::Sleeping));
    assert_eq!(state.backoff_attempt, 3);
    assert_eq!(state.last_change_time, 1_000);
    assert_eq!(step(&config, &mut state, Event::Woke, 1_001), quiet(Action::OpenLocal));
    assert_eq!(step(&config, &mut state, Event::Woke, 1_001), None);
    assert!(matches!(state.phase, Phase::OpeningLocal));
    advance_from_opening(&config, &mut state);
    assert_eq!(step(&config, &mut state, Event::Woke, 1_001), None);
    assert!(matches!(&state.phase, Phase::ReadingLocal { remote_head } if remote_head == "abc123"));
}

fn advance_from_opening(config: &Config, state: &mut LoopState) {
    assert_eq!(step(config, state, Event::LocalOpened(true), 1_001), quiet(Action::FetchRemote));
    assert_eq!(
        step(config, state, Event::RemoteFetched(Ok(String::from("abc123"))), 1_001),
        quiet(Action::ReadLocal)
    );
}

#[test]
fn error_kinds_have_their_names() {
    assert_eq!(ErrorKind::ConfigError.name(), "ConfigError");
    assert_eq!(ErrorKind::RemoteUnavailable.name(), "RemoteUnavailable");
    assert_eq!(ErrorKind::RemoteProtocolError.name(), "RemoteProtocolError");
    assert_eq!(ErrorKind::LocalRepoUnavailable.name(), "LocalRepoUnavailable");
    assert_eq!(ErrorKind::SyncActionFailed.name(), "SyncActionFailed");
}

#[test]
fn only_configuration_errors_are_fatal() {
    assert!(!ErrorKind::ConfigError.is_recoverable());
    assert!(ErrorKind::RemoteUnavailable.is_recoverable());
    assert!(ErrorKind::RemoteProtocolError.is_recoverable());
    assert!(ErrorKind::LocalRepoUnavailable.is_recoverable());
    assert!(ErrorKind::SyncActionFailed.is_recoverable());
}
