use nebulafx::state::{ServiceState, ServiceStateManager, ShutdownSignal};

#[test]
fn manager_starts_at_starting_and_overwrites() {
    let mut manager = ServiceStateManager::new();
    assert_eq!(manager.current_state(), ServiceState::Starting);
    manager.update(ServiceState::Running);
    assert_eq!(manager.current_state(), ServiceState::Running);
    manager.update(ServiceState::Stopped);
    assert_eq!(manager.current_state(), ServiceState::Stopped);
    // the cell does not judge transitions
    manager.update(ServiceState::Starting);
    assert_eq!(manager.current_state(), ServiceState::Starting);
}

#[test]
fn forward_transitions() {
    let order =
        [ServiceState::Starting, ServiceState::Running, ServiceState::Stopping, ServiceState::Stopped];
    for (i, a) in order.iter().enumerate() {
        for (k, b) in order.iter().enumerate() {
            assert_eq!(a.is_followed_by(*b), k == i + 1);
        }
    }
    assert!(ServiceState::Stopped.is_terminal());
    assert!(!ServiceState::Stopping.is_terminal());
    assert!(!ServiceState::Starting.is_terminal());
    assert_ne!(ShutdownSignal::Interrupt, ShutdownSignal::Terminate);
}
