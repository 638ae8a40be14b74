use nebulafx::bootstrap::{BootstrapContext, MaintenanceFlags};
use nebulafx::cancel::CancellationScope;
use nebulafx::shutdown::{
    ShutdownCoordinator, ShutdownPhase, ShutdownStep, SHUTDOWN_GRACE_SECS, SHUTDOWN_STEP_COUNT,
};
use nebulafx::state::{ServiceState, ServiceStateManager, ShutdownSignal};

fn context(scanner: bool, heal_manager: bool) -> BootstrapContext {
    BootstrapContext {
        flags: MaintenanceFlags { enable_heal: heal_manager, enable_scanner: scanner },
        serving_layer: true,
        storage_engine: true,
        replication_pool: true,
        notification_system: true,
        audit_system: true,
        heal_manager,
        scanner,
    }
}

fn run_to_end(ctx: BootstrapContext, fail: &[ShutdownStep]) -> (Vec<ShutdownStep>, ShutdownCoordinator, ServiceStateManager) {
    let mut coordinator = ShutdownCoordinator::new(ctx);
    let mut scope = CancellationScope::new();
    let mut state = ServiceStateManager::new();
    state.update(ServiceState::Running);
    assert!(coordinator.trigger(ShutdownSignal::Terminate, &mut scope, &mut state));
    assert!(scope.is_cancelled());
    let mut made = Vec::new();
    while let Some(step) = coordinator.begin() {
        made.push(step);
        assert_eq!(coordinator.begin(), None);
        assert_eq!(state.current_state(), ServiceState::Stopping);
        coordinator.complete(!fail.contains(&step), &mut state);
    }
    (made, coordinator, state)
}

#[test]
fn teardown_runs_in_order_and_ends_stopped() {
    let (made, coordinator, state) = run_to_end(context(true, true), &[]);
    assert_eq!(
        made,
        vec![
            ShutdownStep::StopScanner,
            ShutdownStep::StopHealManager,
            ShutdownStep::StopEventNotifier,
            ShutdownStep::StopAuditSystem,
            ShutdownStep::StopServingLayer,
            ShutdownStep::AwaitGracePeriod,
        ]
    );
    assert_eq!(coordinator.phase(), ShutdownPhase::Done);
    assert_eq!(coordinator.failures(), 0);
    assert_eq!(state.current_state(), ServiceState::Stopped);
}

#[test]
fn disabled_maintenance_is_not_asked_to_stop() {
    let (made, _, state) = run_to_end(context(false, false), &[]);
    assert_eq!(
        made,
        vec![
            ShutdownStep::StopEventNotifier,
            ShutdownStep::StopAuditSystem,
            ShutdownStep::StopServingLayer,
            ShutdownStep::AwaitGracePeriod,
        ]
    );
    assert_eq!(state.current_state(), ServiceState::Stopped);
}

#[test]
fn only_the_started_maintenance_subsystem_is_stopped() {
    let (made, _, _) = run_to_end(context(true, false), &[]);
    assert!(made.contains(&ShutdownStep::StopScanner));
    assert!(!made.contains(&ShutdownStep::StopHealManager));
    let (made, _, _) = run_to_end(context(false, true), &[]);
    assert!(!made.contains(&ShutdownStep::StopScanner));
    assert!(made.contains(&ShutdownStep::StopHealManager));
}

#[test]
fn nothing_started_leaves_only_the_grace_period() {
    let ctx = BootstrapContext {
        flags: MaintenanceFlags { enable_heal: true, enable_scanner: true },
        serving_layer: false,
        storage_engine: false,
        replication_pool: false,
        notification_system: false,
        audit_system: false,
        heal_manager: false,
        scanner: false,
    };
    let (made, coordinator, state) = run_to_end(ctx, &[]);
    assert_eq!(made, vec![ShutdownStep::AwaitGracePeriod]);
    assert_eq!(coordinator.phase(), ShutdownPhase::Done);
    assert_eq!(state.current_state(), ServiceState::Stopped);
}

#[test]
fn failing_stop_calls_do_not_stop_the_teardown() {
    let (made, coordinator, state) = run_to_end(
        context(true, true),
        &[ShutdownStep::StopScanner, ShutdownStep::StopAuditSystem],
    );
    assert_eq!(made.len(), 6);
    assert_eq!(coordinator.failures(), 2);
    assert_eq!(coordinator.phase(), ShutdownPhase::Done);
    assert_eq!(state.current_state(), ServiceState::Stopped);
}

#[test]
fn stopped_is_published_only_when_the_grace_period_returns() {
    let mut coordinator = ShutdownCoordinator::new(context(false, false));
    let mut scope = CancellationScope::new();
    let mut state = ServiceStateManager::new();
    state.update(ServiceState::Running);
    coordinator.trigger(ShutdownSignal::Interrupt, &mut scope, &mut state);
    assert_eq!(state.current_state(), ServiceState::Stopping);
    loop {
        let step = coordinator.begin().unwrap();
        assert_eq!(state.current_state(), ServiceState::Stopping);
        assert!(!coordinator.has_completed(ShutdownStep::AwaitGracePeriod));
        if step == ShutdownStep::AwaitGracePeriod {
            assert_eq!(coordinator.phase(), ShutdownPhase::Waiting);
            coordinator.complete(true, &mut state);
            break;
        }
        coordinator.complete(true, &mut state);
        assert_eq!(state.current_state(), ServiceState::Stopping);
    }
    assert_eq!(state.current_state(), ServiceState::Stopped);
    assert!(coordinator.has_completed(ShutdownStep::AwaitGracePeriod));
}

#[test]
fn second_signal_is_a_no_op() {
    let mut coordinator = ShutdownCoordinator::new(context(true, true));
    let mut scope = CancellationScope::new();
    let mut state = ServiceStateManager::new();
    assert!(coordinator.trigger(ShutdownSignal::Interrupt, &mut scope, &mut state));
    assert_eq!(coordinator.begin(), Some(ShutdownStep::StopScanner));
    coordinator.complete(true, &mut state);
    // a second signal restarts nothing
    state.update(ServiceState::Stopping);
    assert!(!coordinator.trigger(ShutdownSignal::Terminate, &mut scope, &mut state));
    assert_eq!(coordinator.phase(), ShutdownPhase::Ready);
    assert_eq!(state.current_state(), ServiceState::Stopping);
    assert_eq!(coordinator.begin(), Some(ShutdownStep::StopHealManager));
}

#[test]
fn idle_coordinator_hands_out_nothing() {
    let mut coordinator = ShutdownCoordinator::new(context(true, true));
    let mut state = ServiceStateManager::new();
    assert_eq!(coordinator.phase(), ShutdownPhase::Idle);
    assert_eq!(coordinator.begin(), None);
    coordinator.complete(true, &mut state);
    assert_eq!(coordinator.phase(), ShutdownPhase::Idle);
    assert_eq!(state.current_state(), ServiceState::Starting);
    assert!(!coordinator.has_completed(ShutdownStep::StopScanner));
    assert_eq!(coordinator.context(), context(true, true));
}

#[test]
fn shutdown_step_indices() {
    assert_eq!(SHUTDOWN_STEP_COUNT, 6);
    assert_eq!(SHUTDOWN_GRACE_SECS, 1);
    for i in 0..SHUTDOWN_STEP_COUNT {
        assert_eq!(ShutdownStep::from_index(i).unwrap().index(), i);
    }
    assert_eq!(ShutdownStep::from_index(6), None);
    assert!(ShutdownStep::AwaitGracePeriod.is_due(&context(false, false)));
    assert!(!ShutdownStep::StopScanner.is_due(&context(false, true)));
    assert!(ShutdownStep::StopHealManager.is_due(&context(false, true)));
}
