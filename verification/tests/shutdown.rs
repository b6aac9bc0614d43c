use subscription_service::shutdown::{Broadcaster, ShutdownSubscription};
use tokio::sync::broadcast::error::TryRecvError;

fn subscribe_many(broadcaster: &mut Broadcaster, count: usize) -> Vec<ShutdownSubscription> {
    let mut handles = Vec::new();
    for _ in 0..count {
        handles.push(broadcaster.subscribe().expect("identifiers are not exhausted"));
    }
    handles
}

#[test]
fn new_broadcaster_has_not_fired_and_has_no_subscribers() {
    let broadcaster = Broadcaster::new();
    assert!(!broadcaster.is_fired());
    assert_eq!(broadcaster.live_count(), 0);
}

#[test]
fn fire_with_no_subscribers_is_fine() {
    let mut broadcaster = Broadcaster::new();
    broadcaster.fire();
    assert!(broadcaster.is_fired());
    assert_eq!(broadcaster.live_count(), 0);
}

#[test]
fn nothing_is_seen_before_the_signal_is_fired() {
    let mut broadcaster = Broadcaster::new();
    let handle = broadcaster.subscribe().unwrap();
    assert!(!broadcaster.observe(&handle));
    assert!(!broadcaster.observe(&handle));
    broadcaster.fire();
    assert!(broadcaster.observe(&handle));
}

#[test]
fn fire_reaches_every_subscriber_exactly_once() {
    for count in [1usize, 2, 5, 64] {
        let mut broadcaster = Broadcaster::new();
        let handles = subscribe_many(&mut broadcaster, count);
        assert_eq!(broadcaster.live_count(), count);
        broadcaster.fire();
        for handle in &handles {
            assert!(broadcaster.observe(handle), "first look finds the signal");
        }
        for handle in &handles {
            assert!(!broadcaster.observe(handle), "second look finds nothing");
        }
        assert_eq!(broadcaster.live_count(), count);
    }
}

#[test]
fn subscriber_registered_just_before_fire_is_reached() {
    let mut broadcaster = Broadcaster::new();
    let early = broadcaster.subscribe().unwrap();
    let last_minute = broadcaster.subscribe().unwrap();
    broadcaster.fire();
    assert!(broadcaster.observe(&last_minute));
    assert!(broadcaster.observe(&early));
}

#[test]
fn late_subscriber_sees_the_signal_at_once() {
    let mut broadcaster = Broadcaster::new();
    broadcaster.fire();
    let late = broadcaster.subscribe().unwrap();
    assert!(broadcaster.observe(&late));
    assert!(!broadcaster.observe(&late));
}

#[test]
fn firing_twice_is_the_same_as_firing_once() {
    let mut broadcaster = Broadcaster::new();
    let a = broadcaster.subscribe().unwrap();
    let b = broadcaster.subscribe().unwrap();
    broadcaster.fire();
    broadcaster.fire();
    assert!(broadcaster.is_fired());
    assert!(broadcaster.observe(&a));
    broadcaster.fire();
    assert!(!broadcaster.observe(&a), "firing again does not signal a second time");
    assert!(broadcaster.observe(&b), "the other subscriber still has its signal");
    assert_eq!(broadcaster.live_count(), 2);
}

#[test]
fn one_subscriber_taking_the_signal_leaves_the_others_theirs() {
    let mut broadcaster = Broadcaster::new();
    let handles = subscribe_many(&mut broadcaster, 3);
    broadcaster.fire();
    assert!(broadcaster.observe(&handles[1]));
    assert!(!broadcaster.observe(&handles[1]));
    assert!(broadcaster.observe(&handles[0]));
    assert!(broadcaster.observe(&handles[2]));
}

#[test]
fn unsubscribing_removes_only_that_subscriber() {
    let mut broadcaster = Broadcaster::new();
    let mut handles = subscribe_many(&mut broadcaster, 3);
    let gone = handles.remove(1);
    assert!(broadcaster.is_live(&gone));
    broadcaster.unsubscribe(gone);
    assert_eq!(broadcaster.live_count(), 2);
    assert!(broadcaster.is_live(&handles[0]));
    assert!(broadcaster.is_live(&handles[1]));
    broadcaster.fire();
    assert!(broadcaster.observe(&handles[0]));
    assert!(broadcaster.observe(&handles[1]));
}

#[test]
fn identifiers_are_handed_out_in_order_and_never_again() {
    let mut broadcaster = Broadcaster::new();
    let first = broadcaster.subscribe().unwrap();
    let second = broadcaster.subscribe().unwrap();
    assert_eq!(first.number(), 0);
    assert_eq!(second.number(), 1);
    broadcaster.unsubscribe(first);
    let third = broadcaster.subscribe().unwrap();
    assert_eq!(third.number(), 2);
    assert_ne!(third.number(), second.number());
}

#[test]
fn subscriber_that_left_and_one_that_came_are_told_apart() {
    let mut broadcaster = Broadcaster::new();
    let old = broadcaster.subscribe().unwrap();
    broadcaster.fire();
    assert!(broadcaster.observe(&old));
    broadcaster.unsubscribe(old);
    let new = broadcaster.subscribe().unwrap();
    assert!(broadcaster.observe(&new), "the newcomer has not seen the signal yet");
    assert_eq!(broadcaster.live_count(), 1);
}

#[test]
fn bell_is_silent_until_the_signal_is_fired() {
    let mut broadcaster = Broadcaster::new();
    let mut wake = broadcaster.bell().subscribe();
    let handle = broadcaster.subscribe().unwrap();
    assert!(!broadcaster.observe(&handle));
    assert!(matches!(wake.try_recv(), Err(TryRecvError::Empty)));
}

#[test]
fn first_fire_rings_the_bell_for_every_waiting_task() {
    let mut broadcaster = Broadcaster::new();
    let mut first = broadcaster.bell().subscribe();
    let mut second = broadcaster.bell().subscribe();
    broadcaster.fire();
    assert_eq!(first.try_recv(), Ok(()));
    assert_eq!(second.try_recv(), Ok(()));
    assert!(matches!(first.try_recv(), Err(TryRecvError::Empty)));
}

#[test]
fn firing_again_does_not_ring_again() {
    let mut broadcaster = Broadcaster::new();
    let mut wake = broadcaster.bell().subscribe();
    broadcaster.fire();
    assert_eq!(wake.try_recv(), Ok(()));
    broadcaster.fire();
    broadcaster.fire();
    assert!(matches!(wake.try_recv(), Err(TryRecvError::Empty)));
}

#[test]
fn fire_with_nobody_waiting_for_the_bell_is_fine() {
    let mut broadcaster = Broadcaster::new();
    let handle = broadcaster.subscribe().unwrap();
    broadcaster.fire();
    assert!(broadcaster.observe(&handle));
    let mut late = broadcaster.bell().subscribe();
    assert!(matches!(late.try_recv(), Err(TryRecvError::Empty)));
}

#[test]
fn bell_stays_the_same_channel() {
    let mut broadcaster = Broadcaster::new();
    let before = broadcaster.bell().clone();
    let handle = broadcaster.subscribe().unwrap();
    broadcaster.fire();
    broadcaster.observe(&handle);
    broadcaster.unsubscribe(handle);
    assert!(broadcaster.bell().same_channel(&before));
}
