use user_service::startup::{ConnectAction, ConnectEvent, ConnectState, RetryPolicy};

#[test]
fn the_startup_policy_waits_a_second_and_has_no_limit() {
    assert_eq!(RetryPolicy::startup(), RetryPolicy { interval_millis: 1000, max_attempts: None });
}

#[test]
fn a_connection_starts_with_an_attempt() {
    let policy = RetryPolicy::startup();
    assert_eq!(policy.start(), (ConnectState::Attempting { failed: 0 }, ConnectAction::Attempt));
}

#[test]
fn a_successful_attempt_connects() {
    let policy = RetryPolicy::startup();
    let (state, _) = policy.start();
    assert_eq!(
        policy.step(state, ConnectEvent::Succeeded),
        (ConnectState::Connected, ConnectAction::Proceed)
    );
}

#[test]
fn a_failed_attempt_is_followed_by_the_pause_and_the_next_attempt() {
    let policy = RetryPolicy::startup();
    let (state, _) = policy.start();
    let (state, action) = policy.step(state, ConnectEvent::Failed);
    assert_eq!((state, action), (ConnectState::Waiting { failed: 1 }, ConnectAction::Wait(1000)));
    let (state, action) = policy.step(state, ConnectEvent::Waited);
    assert_eq!((state, action), (ConnectState::Attempting { failed: 1 }, ConnectAction::Attempt));
    let (state, action) = policy.step(state, ConnectEvent::Failed);
    assert_eq!((state, action), (ConnectState::Waiting { failed: 2 }, ConnectAction::Wait(1000)));
}

#[test]
fn without_a_limit_the_attempts_go_on_until_one_succeeds() {
    let policy = RetryPolicy::startup();
    let (mut state, mut action) = policy.start();
    for round in 1..=10_000u64 {
        assert_eq!(action, ConnectAction::Attempt);
        (state, action) = policy.step(state, ConnectEvent::Failed);
        assert_eq!(state, ConnectState::Waiting { failed: round });
        assert_eq!(action, ConnectAction::Wait(1000));
        (state, action) = policy.step(state, ConnectEvent::Waited);
    }
    assert_eq!(
        policy.step(state, ConnectEvent::Succeeded),
        (ConnectState::Connected, ConnectAction::Proceed)
    );
}

#[test]
fn with_a_limit_the_machine_gives_up_when_it_is_used_up() {
    let policy = RetryPolicy { interval_millis: 5, max_attempts: Some(2) };
    let (state, _) = policy.start();
    let (state, action) = policy.step(state, ConnectEvent::Failed);
    assert_eq!((state, action), (ConnectState::Waiting { failed: 1 }, ConnectAction::Wait(5)));
    let (state, _) = policy.step(state, ConnectEvent::Waited);
    assert_eq!(
        policy.step(state, ConnectEvent::Failed),
        (ConnectState::GivenUp, ConnectAction::Abandon)
    );
    let hasty = RetryPolicy { interval_millis: 5, max_attempts: Some(0) };
    let (state, action) = hasty.start();
    assert_eq!(action, ConnectAction::Attempt);
    assert_eq!(
        hasty.step(state, ConnectEvent::Failed),
        (ConnectState::GivenUp, ConnectAction::Abandon)
    );
}

#[test]
fn events_out_of_turn_change_nothing() {
    let policy = RetryPolicy::startup();
    let attempting = ConnectState::Attempting { failed: 3 };
    let waiting = ConnectState::Waiting { failed: 3 };
    assert_eq!(policy.step(attempting, ConnectEvent::Waited).0, attempting);
    assert_eq!(policy.step(waiting, ConnectEvent::Failed).0, waiting);
    assert_eq!(policy.step(waiting, ConnectEvent::Succeeded).0, waiting);
    for event in [ConnectEvent::Succeeded, ConnectEvent::Failed, ConnectEvent::Waited] {
        assert_eq!(
            policy.step(ConnectState::Connected, event),
            (ConnectState::Connected, ConnectAction::Proceed)
        );
        assert_eq!(
            policy.step(ConnectState::GivenUp, event),
            (ConnectState::GivenUp, ConnectAction::Abandon)
        );
    }
}

#[test]
fn the_count_of_failures_stops_at_the_largest_number() {
    let policy = RetryPolicy::startup();
    let state = ConnectState::Attempting { failed: u64::MAX };
    assert_eq!(
        policy.step(state, ConnectEvent::Failed),
        (ConnectState::Waiting { failed: u64::MAX }, ConnectAction::Wait(1000))
    );
}

#[test]
fn each_state_asks_for_its_action() {
    let policy = RetryPolicy { interval_millis: 250, max_attempts: None };
    assert_eq!(policy.action(ConnectState::Attempting { failed: 0 }), ConnectAction::Attempt);
    assert_eq!(policy.action(ConnectState::Waiting { failed: 1 }), ConnectAction::Wait(250));
    assert_eq!(policy.action(ConnectState::Connected), ConnectAction::Proceed);
    assert_eq!(policy.action(ConnectState::GivenUp), ConnectAction::Abandon);
}
