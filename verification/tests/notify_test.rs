use simple_actor::notify::{semaphore_wait_outcome, BridgeState, SynchronizationKind};
use simple_actor::{ActorError, Res, SimpleActorError};

#[test]
fn semaphore_outcomes() {
    let r: Res<(), String> = semaphore_wait_outcome::<u8, (), String>(Ok(1));
    assert!(r.is_ok());
    let r: Res<(), String> = semaphore_wait_outcome::<u8, (), String>(Err(()));
    assert!(matches!(r, Err(ActorError::Simple(SimpleActorError::Receive))));
}

#[test]
fn stop_closes_only_semaphores() {
    assert!(!SynchronizationKind::Notify.closes_on_stop());
    assert!(SynchronizationKind::Semaphore.closes_on_stop());
}

/// One passage of a bridge: returns whether it goes on waiting.
fn pass(bridge: &mut BridgeState, waited: Res<(), String>, counter: &mut u32) -> bool {
    if bridge.on_synchronized(waited) {
        // the actor processes the message: it counts it
        *counter += 1;
        bridge.on_delivered::<String>(Ok(()))
    } else {
        false
    }
}

#[test]
fn notification_test() {
    let mut counter = 0u32;
    let mut notify_bridge = BridgeState::new();
    let mut semaphore_bridge = BridgeState::new();

    // Initially, the counter is zero
    assert_eq!(0, counter);
    // Fire notification
    assert!(pass(&mut notify_bridge, Ok(()), &mut counter));
    assert_eq!(1, counter);
    // Add 15 permits to semaphore
    for _ in 0..(10 + 5) {
        assert!(pass(&mut semaphore_bridge, semaphore_wait_outcome::<(), (), String>(Ok(())), &mut counter));
    }
    assert_eq!(1 + 15, counter);
    // The semaphore closing does not cause error: that bridge ends
    assert!(!pass(&mut semaphore_bridge, semaphore_wait_outcome::<(), (), String>(Err(())), &mut counter));
    // Fire notification again
    assert!(pass(&mut notify_bridge, Ok(()), &mut counter));
    assert_eq!(1 + 15 + 1, counter);
    // stop the notification's bridge
    notify_bridge.on_stop();
}

#[test]
fn bridge_ends_when_actor_is_gone() {
    let mut bridge = BridgeState::new();
    assert!(bridge.on_synchronized::<String>(Ok(())));
    assert!(!bridge.on_delivered::<String>(Err(ActorError::Simple(SimpleActorError::Send))));
}

#[test]
fn stop_during_delivery_ends_after_it() {
    // the stop request comes while the message is on its way: it is delivered, then the bridge ends
    let mut bridge = BridgeState::new();
    assert!(bridge.on_synchronized::<String>(Ok(())));
    bridge.on_stop();
    assert!(!bridge.on_delivered::<String>(Ok(())));

    // the same when the delivery fails
    let mut bridge = BridgeState::new();
    assert!(bridge.on_synchronized::<String>(Ok(())));
    bridge.on_stop();
    assert!(!bridge.on_delivered::<String>(Err(ActorError::Simple(SimpleActorError::Send))));
}
