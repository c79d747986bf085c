use bringup_fetch::bringup::BringupAction;
use bringup_fetch::bringup::BringupEvent;
use bringup_fetch::bringup::BringupState;
use bringup_fetch::bringup::ConnectivityBringupManager;
use bringup_fetch::config::RetryPolicy;

#[test]
fn fresh_manager_is_radio_ready() {
    let m = ConnectivityBringupManager::new();
    assert_eq!(m.state(), BringupState::RadioReady);
}

#[test]
fn join_failures_are_retried_forever() {
    let mut m = ConnectivityBringupManager::new();
    let a = m.step(BringupEvent::Proceed);
    assert_eq!(a, BringupAction::AttemptJoin);
    assert_eq!(m.state(), BringupState::Joining);
    for status in 0u32..25 {
        let a = m.step(BringupEvent::JoinResult { ok: false, status });
        assert_eq!(a, BringupAction::AttemptJoin);
        assert_eq!(m.state(), BringupState::Joining);
    }
    assert_eq!(m.retry_policy(), RetryPolicy::RetryForever);
}

#[test]
fn first_join_success_moves_to_joined() {
    let mut m = ConnectivityBringupManager::new();
    m.step(BringupEvent::Proceed);
    for status in 0u32..7 {
        m.step(BringupEvent::JoinResult { ok: false, status });
    }
    let a = m.step(BringupEvent::JoinResult { ok: true, status: 0 });
    assert_eq!(m.state(), BringupState::Joined);
    assert_eq!(a, BringupAction::Advance);
}

#[test]
fn full_bringup_sequence_in_order() {
    let mut m = ConnectivityBringupManager::new();
    assert_eq!(m.step(BringupEvent::Proceed), BringupAction::AttemptJoin);
    assert_eq!(
        m.step(BringupEvent::JoinResult { ok: true, status: 0 }),
        BringupAction::Advance
    );
    assert_eq!(m.state(), BringupState::Joined);
    assert_eq!(
        m.step(BringupEvent::Proceed),
        BringupAction::PollAddress { delay_ms: 100 }
    );
    assert_eq!(m.state(), BringupState::AwaitingAddress);
    assert_eq!(
        m.step(BringupEvent::AddressPoll { configured: false }),
        BringupAction::PollAddress { delay_ms: 100 }
    );
    assert_eq!(m.state(), BringupState::AwaitingAddress);
    assert_eq!(
        m.step(BringupEvent::AddressPoll { configured: true }),
        BringupAction::Advance
    );
    assert_eq!(m.state(), BringupState::AddressUp);
    assert_eq!(
        m.step(BringupEvent::Proceed),
        BringupAction::PollLink { delay_ms: 500 }
    );
    assert_eq!(m.state(), BringupState::AwaitingLink);
    assert_eq!(
        m.step(BringupEvent::LinkPoll { up: false }),
        BringupAction::PollLink { delay_ms: 500 }
    );
    assert_eq!(m.state(), BringupState::AwaitingLink);
    assert_eq!(
        m.step(BringupEvent::LinkPoll { up: true }),
        BringupAction::AwaitStackConfigured
    );
    assert_eq!(m.state(), BringupState::LinkUp);
    assert_eq!(m.step(BringupEvent::StackConfigured), BringupAction::HandOff);
    assert_eq!(m.state(), BringupState::StackReady);
}

#[test]
fn events_that_do_not_belong_change_nothing() {
    let mut m = ConnectivityBringupManager::new();
    m.step(BringupEvent::LinkPoll { up: true });
    assert_eq!(m.state(), BringupState::RadioReady);
    m.step(BringupEvent::StackConfigured);
    assert_eq!(m.state(), BringupState::RadioReady);
    m.step(BringupEvent::Proceed);
    assert_eq!(m.state(), BringupState::Joining);
    m.step(BringupEvent::AddressPoll { configured: true });
    assert_eq!(m.state(), BringupState::Joining);
    m.step(BringupEvent::Proceed);
    assert_eq!(m.state(), BringupState::Joining);
}

#[test]
fn no_poll_is_owed_before_join_succeeds() {
    let mut m = ConnectivityBringupManager::new();
    let mut actions = Vec::new();
    actions.push(m.step(BringupEvent::Proceed));
    for status in 0u32..10 {
        actions.push(m.step(BringupEvent::JoinResult { ok: false, status }));
        actions.push(m.step(BringupEvent::Proceed));
    }
    for a in actions {
        assert!(a == BringupAction::AttemptJoin || a == BringupAction::Advance);
    }
}
