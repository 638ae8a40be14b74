use nebulafx::bootstrap::{
    BootstrapPlan, FailureKind, MaintenanceFlags, Phase, Sequencer, Step, StepReport, STEP_COUNT,
};

fn success_report(step: Step, database_configured: bool, buckets: &[&str]) -> StepReport {
    match step {
        Step::LoadConfig => StepReport::ConfigLoaded { database_configured },
        Step::ListBuckets => StepReport::BucketsListed {
            buckets: buckets.iter().map(|b| b.to_string()).collect(),
        },
        _ => StepReport::Succeeded,
    }
}

fn drive(
    flags: MaintenanceFlags,
    database_configured: bool,
    fail_at: Option<Step>,
) -> (Vec<Step>, Sequencer) {
    let mut sequencer = Sequencer::new(flags);
    let mut begun = Vec::new();
    while let Some(step) = sequencer.begin() {
        begun.push(step);
        // nothing else is handed out while the step is in flight
        assert_eq!(sequencer.begin(), None);
        assert_eq!(sequencer.phase(), Phase::Waiting);
        if Some(step) == fail_at {
            sequencer.complete(StepReport::Failed);
        } else {
            sequencer.complete(success_report(step, database_configured, &["a", "b"]));
        }
    }
    (begun, sequencer)
}

fn flags(enable_heal: bool, enable_scanner: bool) -> MaintenanceFlags {
    MaintenanceFlags { enable_heal, enable_scanner }
}

#[test]
fn full_start_up_runs_every_step_in_canonical_order() {
    let (begun, sequencer) = drive(flags(true, true), true, None);
    assert_eq!(
        begun,
        vec![
            Step::LoadConfig,
            Step::InitConnectionPool,
            Step::InitObservability,
            Step::ResolveAddress,
            Step::ComputeTopology,
            Step::InitLocalDisks,
            Step::StartServingLayer,
            Step::InitStorageEngine,
            Step::InitConfigStore,
            Step::InitReplication,
            Step::InitEventNotifier,
            Step::StartAuditSystem,
            Step::ListBuckets,
            Step::InitResync,
            Step::InitBucketMetadata,
            Step::InitIdentity,
            Step::InitNotificationWiring,
            Step::InitHealManager,
            Step::StartScannerWired,
            Step::Reconcile,
        ]
    );
    assert!(sequencer.is_finished());
    assert_eq!(sequencer.phase(), Phase::Finished);
    assert_eq!(sequencer.failure(), None);
    assert_eq!(sequencer.current(), None);
    assert!(!sequencer.is_degraded());
    assert_eq!(sequencer.buckets(), &vec!["a".to_string(), "b".to_string()]);
}

#[test]
fn stages_never_go_backwards() {
    for heal in [false, true] {
        for scanner in [false, true] {
            for db in [false, true] {
                let (begun, _) = drive(flags(heal, scanner), db, None);
                for pair in begun.windows(2) {
                    assert!(pair[0].index() < pair[1].index());
                    assert!(pair[0].stage() <= pair[1].stage());
                }
                assert_eq!(begun.first(), Some(&Step::LoadConfig));
                assert_eq!(begun.last(), Some(&Step::Reconcile));
            }
        }
    }
}

#[test]
fn connection_pool_is_skipped_without_database_section() {
    let (begun, sequencer) = drive(flags(true, true), false, None);
    assert!(!begun.contains(&Step::InitConnectionPool));
    assert_eq!(begun[1], Step::InitObservability);
    assert!(sequencer.is_finished());
    assert!(!sequencer.has_completed(Step::InitConnectionPool));
    assert!(!sequencer.plan().database_configured);
}

#[test]
fn scanner_only_starts_scanner_without_heal_manager() {
    let (begun, sequencer) = drive(flags(false, true), true, None);
    assert!(!begun.contains(&Step::InitHealManager));
    assert!(!begun.contains(&Step::StartScannerWired));
    assert!(begun.contains(&Step::StartScannerStandalone));
    let ctx = sequencer.context();
    assert!(ctx.scanner);
    assert!(!ctx.heal_manager);
    assert!(sequencer.is_finished());
}

#[test]
fn heal_only_starts_heal_manager_and_no_scanner() {
    let (begun, sequencer) = drive(flags(true, false), true, None);
    assert!(begun.contains(&Step::InitHealManager));
    assert!(!begun.contains(&Step::StartScannerWired));
    assert!(!begun.contains(&Step::StartScannerStandalone));
    let ctx = sequencer.context();
    assert!(!ctx.scanner);
    assert!(ctx.heal_manager);
}

#[test]
fn both_disabled_starts_no_maintenance() {
    let (begun, sequencer) = drive(flags(false, false), true, None);
    assert!(!begun.contains(&Step::InitHealManager));
    assert!(!begun.contains(&Step::StartScannerWired));
    assert!(!begun.contains(&Step::StartScannerStandalone));
    assert_eq!(begun.len(), 18);
    let ctx = sequencer.context();
    assert!(!ctx.scanner);
    assert!(!ctx.heal_manager);
    assert!(sequencer.is_finished());
}

#[test]
fn both_enabled_wires_scanner_to_heal_manager() {
    let (begun, sequencer) = drive(flags(true, true), false, None);
    let heal = begun.iter().position(|s| *s == Step::InitHealManager).unwrap();
    let scanner = begun.iter().position(|s| *s == Step::StartScannerWired).unwrap();
    assert!(heal < scanner);
    assert!(!begun.contains(&Step::StartScannerStandalone));
    let ctx = sequencer.context();
    assert!(ctx.scanner && ctx.heal_manager);
}

#[test]
fn unreachable_database_aborts_before_observability() {
    let (begun, sequencer) = drive(flags(true, true), true, Some(Step::InitConnectionPool));
    assert_eq!(begun, vec![Step::LoadConfig, Step::InitConnectionPool]);
    assert_eq!(sequencer.phase(), Phase::Aborted);
    assert_eq!(sequencer.failure(), Some(Step::InitConnectionPool));
    assert_eq!(Step::InitConnectionPool.failure_kind(), FailureKind::Connection);
    assert!(!sequencer.is_finished());
    assert!(sequencer.has_completed(Step::LoadConfig));
    assert!(!sequencer.has_completed(Step::InitConnectionPool));
    assert!(!sequencer.has_completed(Step::InitObservability));
    assert!(!sequencer.has_completed(Step::ComputeTopology));
    assert!(!sequencer.has_completed(Step::InitStorageEngine));
}

#[test]
fn nothing_runs_after_an_abort() {
    let (_, mut sequencer) = drive(flags(true, true), false, Some(Step::InitStorageEngine));
    assert_eq!(sequencer.phase(), Phase::Aborted);
    for _ in 0..3 {
        assert_eq!(sequencer.begin(), None);
        sequencer.complete(StepReport::Succeeded);
        assert_eq!(sequencer.phase(), Phase::Aborted);
        assert_eq!(sequencer.failure(), Some(Step::InitStorageEngine));
    }
    let ctx = sequencer.context();
    assert!(ctx.serving_layer);
    assert!(!ctx.storage_engine);
}

#[test]
fn every_fatal_step_aborts_where_it_fails() {
    let (all, _) = drive(flags(true, true), true, None);
    for (i, step) in all.iter().enumerate() {
        if !step.is_fatal() {
            continue;
        }
        let (begun, sequencer) = drive(flags(true, true), true, Some(*step));
        assert_eq!(begun, all[..=i].to_vec());
        assert_eq!(sequencer.failure(), Some(*step));
    }
}

#[test]
fn failed_configuration_is_a_configuration_error() {
    let (begun, sequencer) = drive(flags(true, true), true, Some(Step::LoadConfig));
    assert_eq!(begun, vec![Step::LoadConfig]);
    assert_eq!(sequencer.failure().map(|s| s.failure_kind()), Some(FailureKind::Configuration));
}

#[test]
fn failed_scanner_is_a_feature_error() {
    let (_, sequencer) = drive(flags(false, true), false, Some(Step::StartScannerStandalone));
    assert_eq!(sequencer.failure(), Some(Step::StartScannerStandalone));
    assert_eq!(Step::StartScannerStandalone.failure_kind(), FailureKind::FeatureInit);
    assert!(!sequencer.has_completed(Step::Reconcile));
}

#[test]
fn failed_reconciliation_does_not_stop_start_up() {
    let (begun, sequencer) = drive(flags(true, true), false, Some(Step::Reconcile));
    assert_eq!(begun.last(), Some(&Step::Reconcile));
    assert!(sequencer.is_finished());
    assert!(sequencer.is_degraded());
    assert_eq!(sequencer.failure(), None);
    assert_eq!(Step::Reconcile.failure_kind(), FailureKind::Reconciliation);
    assert!(!Step::Reconcile.is_fatal());
}

#[test]
fn a_report_of_the_wrong_kind_counts_as_failure() {
    let mut sequencer = Sequencer::new(flags(true, true));
    assert_eq!(sequencer.begin(), Some(Step::LoadConfig));
    sequencer.complete(StepReport::Succeeded);
    assert_eq!(sequencer.phase(), Phase::Aborted);
    assert_eq!(sequencer.failure(), Some(Step::LoadConfig));

    let mut sequencer = Sequencer::new(flags(true, true));
    assert_eq!(sequencer.begin(), Some(Step::LoadConfig));
    sequencer.complete(StepReport::ConfigLoaded { database_configured: false });
    assert_eq!(sequencer.begin(), Some(Step::InitObservability));
    sequencer.complete(StepReport::ConfigLoaded { database_configured: true });
    assert_eq!(sequencer.failure(), Some(Step::InitObservability));
}

#[test]
fn a_report_without_a_step_in_flight_is_ignored() {
    let mut sequencer = Sequencer::new(flags(true, true));
    sequencer.complete(StepReport::ConfigLoaded { database_configured: true });
    assert_eq!(sequencer.phase(), Phase::Ready);
    assert_eq!(sequencer.current(), Some(Step::LoadConfig));
    assert!(!sequencer.plan().database_configured);
    assert_eq!(sequencer.begin(), Some(Step::LoadConfig));
}

#[test]
fn new_sequencer_has_run_nothing() {
    let sequencer = Sequencer::new(flags(false, true));
    assert_eq!(sequencer.phase(), Phase::Ready);
    assert_eq!(sequencer.current(), Some(Step::LoadConfig));
    assert_eq!(sequencer.plan().flags, flags(false, true));
    assert!(sequencer.buckets().is_empty());
    let ctx = sequencer.context();
    assert!(!ctx.serving_layer && !ctx.storage_engine && !ctx.replication_pool);
    assert!(!ctx.notification_system && !ctx.audit_system && !ctx.heal_manager && !ctx.scanner);
    assert_eq!(ctx.flags, flags(false, true));
}

#[test]
fn context_follows_completed_steps() {
    let mut sequencer = Sequencer::new(flags(true, true));
    let mut seen_serving = false;
    while let Some(step) = sequencer.begin() {
        assert!(!sequencer.has_completed(step));
        sequencer.complete(success_report(step, false, &[]));
        assert!(sequencer.has_completed(step));
        if step == Step::StartServingLayer {
            seen_serving = true;
        }
        assert_eq!(sequencer.context().serving_layer, seen_serving);
    }
    let ctx = sequencer.context();
    assert!(ctx.serving_layer && ctx.storage_engine && ctx.replication_pool);
    assert!(ctx.notification_system && ctx.audit_system);
}

#[test]
fn index_and_from_index_agree() {
    assert_eq!(STEP_COUNT, 21);
    for i in 0..STEP_COUNT {
        let step = Step::from_index(i).unwrap();
        assert_eq!(step.index(), i);
    }
    assert_eq!(Step::from_index(STEP_COUNT), None);
    assert_eq!(Step::from_index(255), None);
    assert_eq!(Step::LoadConfig.index(), 0);
    assert_eq!(Step::Reconcile.index(), 20);
}

#[test]
fn stages_of_the_steps() {
    assert_eq!(Step::LoadConfig.stage(), 1);
    assert_eq!(Step::InitConnectionPool.stage(), 2);
    assert_eq!(Step::InitObservability.stage(), 3);
    assert_eq!(Step::ResolveAddress.stage(), 4);
    assert_eq!(Step::ComputeTopology.stage(), 4);
    assert_eq!(Step::InitLocalDisks.stage(), 5);
    assert_eq!(Step::StartServingLayer.stage(), 6);
    assert_eq!(Step::InitStorageEngine.stage(), 7);
    assert_eq!(Step::InitConfigStore.stage(), 8);
    assert_eq!(Step::StartAuditSystem.stage(), 8);
    assert_eq!(Step::ListBuckets.stage(), 9);
    assert_eq!(Step::InitNotificationWiring.stage(), 9);
    assert_eq!(Step::InitHealManager.stage(), 10);
    assert_eq!(Step::StartScannerWired.stage(), 10);
    assert_eq!(Step::StartScannerStandalone.stage(), 10);
    assert_eq!(Step::Reconcile.stage(), 11);
}

#[test]
fn failure_kinds_follow_the_stage() {
    for i in 0..STEP_COUNT {
        let step = Step::from_index(i).unwrap();
        let expected = match step.stage() {
            1 => FailureKind::Configuration,
            2..=9 => FailureKind::Connection,
            10 => FailureKind::FeatureInit,
            _ => FailureKind::Reconciliation,
        };
        assert_eq!(step.failure_kind(), expected);
    }
}

#[test]
fn enabled_steps_follow_the_plan() {
    let plan = BootstrapPlan { database_configured: false, flags: flags(false, true) };
    assert!(!Step::InitConnectionPool.is_enabled(&plan));
    assert!(!Step::InitHealManager.is_enabled(&plan));
    assert!(!Step::StartScannerWired.is_enabled(&plan));
    assert!(Step::StartScannerStandalone.is_enabled(&plan));
    assert!(Step::Reconcile.is_enabled(&plan));
    let plan = BootstrapPlan { database_configured: true, flags: flags(true, true) };
    assert!(Step::InitConnectionPool.is_enabled(&plan));
    assert!(Step::StartScannerWired.is_enabled(&plan));
    assert!(!Step::StartScannerStandalone.is_enabled(&plan));
}

#[test]
fn names_and_reports() {
    assert_eq!(Step::LoadConfig.name(), "load configuration");
    assert_eq!(Step::Reconcile.name(), "bucket notification reconciliation");
    assert!(StepReport::Succeeded.is_success_of(Step::InitObservability));
    assert!(!StepReport::Succeeded.is_success_of(Step::LoadConfig));
    assert!(!StepReport::Failed.is_success_of(Step::Reconcile));
    assert!(StepReport::BucketsListed { buckets: vec![] }.is_success_of(Step::ListBuckets));
    let all = MaintenanceFlags::all_enabled();
    assert!(all.enable_heal && all.enable_scanner);
}
