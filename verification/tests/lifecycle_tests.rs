use whep_client::lifecycle::{ConnectionState, LifecycleActions, LifecycleController, LifecycleEvent};

const NOTHING: LifecycleActions =
    LifecycleActions { broadcast_termination: false, enqueue_completion: false, close_session: false };

fn changed(state: ConnectionState) -> LifecycleEvent {
    LifecycleEvent::ConnectionStateChanged(state)
}

fn every_state() -> Vec<ConnectionState> {
    vec![
        ConnectionState::Unspecified,
        ConnectionState::New,
        ConnectionState::Checking,
        ConnectionState::Connected,
        ConnectionState::Completed,
        ConnectionState::Disconnected,
        ConnectionState::Failed,
        ConnectionState::Closed,
    ]
}

#[test]
fn a_new_controller_has_signalled_nothing() {
    let c = LifecycleController::new();
    assert_eq!(c.connection_state(), ConnectionState::New);
    assert!(!c.termination_signaled());
    assert!(!c.completion_pending());
    assert!(!c.is_closed());
}

#[test]
fn only_a_failed_connection_triggers_shutdown() {
    for state in every_state() {
        let mut c = LifecycleController::new();
        let actions = c.step(changed(state));
        assert_eq!(c.connection_state(), state);
        if state == ConnectionState::Failed {
            assert_eq!(
                actions,
                LifecycleActions {
                    broadcast_termination: true,
                    enqueue_completion: true,
                    close_session: false
                }
            );
            assert!(c.termination_signaled());
            assert!(c.completion_pending());
        } else {
            assert_eq!(actions, NOTHING);
            assert!(!c.termination_signaled());
            assert!(!c.completion_pending());
        }
        assert!(!c.is_closed());
    }
}

#[test]
fn the_termination_signal_fires_once() {
    let mut c = LifecycleController::new();
    assert!(c.step(changed(ConnectionState::Failed)).broadcast_termination);
    assert_eq!(c.step(changed(ConnectionState::Failed)), NOTHING);
    c.step(changed(ConnectionState::Disconnected));
    assert_eq!(c.step(changed(ConnectionState::Failed)), NOTHING);
    assert!(c.termination_signaled());
}

#[test]
fn an_interrupt_fills_the_completion_slot_and_cancels_nothing() {
    let mut c = LifecycleController::new();
    assert_eq!(
        c.step(LifecycleEvent::Interrupt),
        LifecycleActions { broadcast_termination: false, enqueue_completion: true, close_session: false }
    );
    assert!(c.completion_pending());
    assert!(!c.termination_signaled());
    assert!(!c.is_closed());
    assert_eq!(c.step(LifecycleEvent::Interrupt), NOTHING);
}

#[test]
fn a_full_slot_counts_as_already_signalled() {
    let mut failed_first = LifecycleController::new();
    failed_first.step(changed(ConnectionState::Failed));
    assert_eq!(failed_first.step(LifecycleEvent::Interrupt), NOTHING);
    let mut interrupted_first = LifecycleController::new();
    interrupted_first.step(LifecycleEvent::Interrupt);
    assert_eq!(
        interrupted_first.step(changed(ConnectionState::Failed)),
        LifecycleActions { broadcast_termination: true, enqueue_completion: false, close_session: false }
    );
}

#[test]
fn a_received_completion_closes_the_session() {
    let mut c = LifecycleController::new();
    c.step(LifecycleEvent::Interrupt);
    assert_eq!(
        c.step(LifecycleEvent::CompletionReceived),
        LifecycleActions { broadcast_termination: false, enqueue_completion: false, close_session: true }
    );
    assert!(c.is_closed());
    assert!(!c.completion_pending());
}

#[test]
fn a_second_shutdown_closes_nothing() {
    let mut c = LifecycleController::new();
    c.step(changed(ConnectionState::Failed));
    assert!(c.step(LifecycleEvent::CompletionReceived).close_session);
    assert_eq!(c.step(LifecycleEvent::CompletionReceived), NOTHING);
    assert_eq!(c.step(LifecycleEvent::Interrupt), NOTHING);
    assert_eq!(c.step(LifecycleEvent::CompletionReceived), NOTHING);
    assert!(c.is_closed());
}

#[test]
fn failure_and_interrupt_together_close_once() {
    let orders = [
        [changed(ConnectionState::Failed), LifecycleEvent::Interrupt],
        [LifecycleEvent::Interrupt, changed(ConnectionState::Failed)],
    ];
    for order in orders {
        let mut c = LifecycleController::new();
        let mut enqueued = 0;
        let mut closed = 0;
        for event in order {
            if c.step(event).enqueue_completion {
                enqueued += 1;
            }
        }
        assert_eq!(enqueued, 1);
        for _ in 0..3 {
            if c.step(LifecycleEvent::CompletionReceived).close_session {
                closed += 1;
            }
        }
        assert_eq!(closed, 1);
    }
}

#[test]
fn a_closed_session_asks_for_nothing() {
    let mut c = LifecycleController::new();
    c.step(LifecycleEvent::Interrupt);
    c.step(LifecycleEvent::CompletionReceived);
    for state in every_state() {
        assert_eq!(c.step(changed(state)), NOTHING);
        assert_eq!(c.connection_state(), state);
    }
    assert!(!c.termination_signaled());
    assert!(!c.completion_pending());
    assert!(c.is_closed());
}

#[test]
fn a_late_interrupt_after_the_slot_was_emptied_is_ignored() {
    let mut c = LifecycleController::new();
    c.step(changed(ConnectionState::Failed));
    c.step(LifecycleEvent::CompletionReceived);
    assert_eq!(c.step(LifecycleEvent::Interrupt), NOTHING);
    assert!(!c.completion_pending());
}
