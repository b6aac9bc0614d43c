use subscription_service::connection::{ConnectionEvent, Reply};
use subscription_service::shutdown::Broadcaster;
use subscription_service::supervisor::{
    AcceptorPhase, Decision, Supervisor, SupervisorAction, SupervisorEvent,
};

#[test]
fn new_supervisor_is_listening() {
    let supervisor = Supervisor::new();
    assert_eq!(supervisor.phase(), AcceptorPhase::Listening);
    assert!(!supervisor.is_stopped());
}

#[test]
fn ready_connection_gets_a_handler_with_its_own_subscription() {
    let mut broadcaster = Broadcaster::new();
    let mut supervisor = Supervisor::new();
    let action = supervisor.step(&mut broadcaster, SupervisorEvent::ConnectionReady);
    assert_eq!(action.decision(), Decision::Spawn);
    assert_eq!(supervisor.phase(), AcceptorPhase::Accepting);
    match action {
        SupervisorAction::Spawn(connection) => {
            assert!(connection.is_open());
            assert!(broadcaster.is_live(connection.subscription()));
            assert_eq!(connection.subscription().number(), 0);
        },
        other => panic!("expected a handler to be spawned, got {:?}", other),
    }
    assert_eq!(broadcaster.live_count(), 1);
}

#[test]
fn every_accepted_connection_adds_one_subscription() {
    let mut broadcaster = Broadcaster::new();
    let mut supervisor = Supervisor::new();
    let mut connections = Vec::new();
    for expected in 1..=4usize {
        match supervisor.step(&mut broadcaster, SupervisorEvent::ConnectionReady) {
            SupervisorAction::Spawn(connection) => connections.push(connection),
            other => panic!("expected a handler to be spawned, got {:?}", other),
        }
        assert_eq!(broadcaster.live_count(), expected);
        assert_eq!(connections.len(), expected);
    }
    for connection in connections {
        broadcaster.unsubscribe(connection.into_subscription());
    }
    assert_eq!(broadcaster.live_count(), 0);
}

#[test]
fn transient_accept_failure_keeps_listening() {
    let mut broadcaster = Broadcaster::new();
    let mut supervisor = Supervisor::new();
    let action = supervisor.step(&mut broadcaster, SupervisorEvent::AcceptFailed { fatal: false });
    assert_eq!(action.decision(), Decision::Continue);
    assert_eq!(supervisor.phase(), AcceptorPhase::Listening);
    let next = supervisor.step(&mut broadcaster, SupervisorEvent::ConnectionReady);
    assert_eq!(next.decision(), Decision::Spawn);
}

#[test]
fn fatal_accept_failure_ends_the_loop() {
    let mut broadcaster = Broadcaster::new();
    let mut supervisor = Supervisor::new();
    let action = supervisor.step(&mut broadcaster, SupervisorEvent::AcceptFailed { fatal: true });
    assert_eq!(action.decision(), Decision::Abort);
    assert!(supervisor.is_stopped());
    assert!(!broadcaster.is_fired());
}

#[test]
fn losing_the_listener_while_accepting_is_fatal() {
    let mut broadcaster = Broadcaster::new();
    let mut supervisor = Supervisor::new();
    let action = supervisor.step(&mut broadcaster, SupervisorEvent::ListenerClosed);
    assert_eq!(action.decision(), Decision::Abort);
    assert_eq!(supervisor.phase(), AcceptorPhase::Stopped);
}

#[test]
fn interrupt_fires_the_signal_and_keeps_the_loop_running() {
    let mut broadcaster = Broadcaster::new();
    let mut supervisor = Supervisor::new();
    let action = supervisor.step(&mut broadcaster, SupervisorEvent::Interrupt);
    assert_eq!(action.decision(), Decision::Continue);
    assert!(broadcaster.is_fired());
    assert_eq!(supervisor.phase(), AcceptorPhase::Listening);
}

#[test]
fn second_interrupt_is_absorbed() {
    let mut broadcaster = Broadcaster::new();
    let mut supervisor = Supervisor::new();
    supervisor.step(&mut broadcaster, SupervisorEvent::Interrupt);
    let again = supervisor.step(&mut broadcaster, SupervisorEvent::Interrupt);
    assert_eq!(again.decision(), Decision::Continue);
    assert!(broadcaster.is_fired());
    assert_eq!(supervisor.phase(), AcceptorPhase::Listening);
}

#[test]
fn wake_up_without_a_fired_signal_changes_nothing() {
    let mut broadcaster = Broadcaster::new();
    let mut supervisor = Supervisor::new();
    let action = supervisor.step(&mut broadcaster, SupervisorEvent::ShutdownSignaled);
    assert_eq!(action.decision(), Decision::Continue);
    assert_eq!(supervisor.phase(), AcceptorPhase::Listening);
}

#[test]
fn seen_signal_stops_accepting_and_closed_listener_ends_the_loop() {
    let mut broadcaster = Broadcaster::new();
    let mut supervisor = Supervisor::new();
    supervisor.step(&mut broadcaster, SupervisorEvent::ConnectionReady);
    supervisor.step(&mut broadcaster, SupervisorEvent::Interrupt);
    let stop = supervisor.step(&mut broadcaster, SupervisorEvent::ShutdownSignaled);
    assert_eq!(stop.decision(), Decision::StopAccepting);
    assert_eq!(supervisor.phase(), AcceptorPhase::Draining);
    let refused = supervisor.step(&mut broadcaster, SupervisorEvent::ConnectionReady);
    assert_eq!(refused.decision(), Decision::Refuse);
    assert_eq!(broadcaster.live_count(), 1);
    let again = supervisor.step(&mut broadcaster, SupervisorEvent::ShutdownSignaled);
    assert_eq!(again.decision(), Decision::Continue);
    let exit = supervisor.step(&mut broadcaster, SupervisorEvent::ListenerClosed);
    assert_eq!(exit.decision(), Decision::Exit);
    assert!(supervisor.is_stopped());
}

#[test]
fn stopped_loop_answers_every_event_with_exit() {
    let mut broadcaster = Broadcaster::new();
    let mut supervisor = Supervisor::new();
    supervisor.step(&mut broadcaster, SupervisorEvent::AcceptFailed { fatal: true });
    for event in [
        SupervisorEvent::ConnectionReady,
        SupervisorEvent::AcceptFailed { fatal: false },
        SupervisorEvent::AcceptFailed { fatal: true },
        SupervisorEvent::Interrupt,
        SupervisorEvent::ShutdownSignaled,
        SupervisorEvent::ListenerClosed,
    ] {
        let action = supervisor.step(&mut broadcaster, event);
        assert_eq!(action.decision(), Decision::Exit);
        assert!(supervisor.is_stopped());
    }
    assert!(!broadcaster.is_fired());
    assert_eq!(broadcaster.live_count(), 0);
}

#[test]
fn interrupt_reaches_every_running_handler() {
    let mut broadcaster = Broadcaster::new();
    let mut supervisor = Supervisor::new();
    let mut connections = Vec::new();
    for _ in 0..3 {
        match supervisor.step(&mut broadcaster, SupervisorEvent::ConnectionReady) {
            SupervisorAction::Spawn(connection) => connections.push(connection),
            other => panic!("expected a handler to be spawned, got {:?}", other),
        }
    }
    let mut wake = broadcaster.bell().subscribe();
    let action = supervisor.step(&mut broadcaster, SupervisorEvent::Interrupt);
    assert_eq!(action.decision(), Decision::Continue);
    assert!(wake.try_recv().is_ok(), "the waiting tasks are woken");
    for connection in connections.iter_mut() {
        assert!(broadcaster.observe(connection.subscription()));
        assert_eq!(connection.on_event(ConnectionEvent::ShutdownSignaled), Reply::Farewell);
        assert!(!connection.is_open());
        assert!(!broadcaster.observe(connection.subscription()));
    }
}

#[test]
fn connection_accepted_between_fire_and_stop_is_signaled_from_the_start() {
    let mut broadcaster = Broadcaster::new();
    let mut supervisor = Supervisor::new();
    supervisor.step(&mut broadcaster, SupervisorEvent::Interrupt);
    let action = supervisor.step(&mut broadcaster, SupervisorEvent::ConnectionReady);
    match action {
        SupervisorAction::Spawn(mut connection) => {
            assert!(broadcaster.observe(connection.subscription()));
            assert_eq!(connection.on_event(ConnectionEvent::ShutdownSignaled), Reply::Farewell);
        },
        other => panic!("expected a handler to be spawned, got {:?}", other),
    }
}

#[test]
fn interrupt_while_draining_is_absorbed() {
    let mut broadcaster = Broadcaster::new();
    let mut supervisor = Supervisor::new();
    supervisor.step(&mut broadcaster, SupervisorEvent::Interrupt);
    supervisor.step(&mut broadcaster, SupervisorEvent::ShutdownSignaled);
    let action = supervisor.step(&mut broadcaster, SupervisorEvent::Interrupt);
    assert_eq!(action.decision(), Decision::Continue);
    assert_eq!(supervisor.phase(), AcceptorPhase::Draining);
}
