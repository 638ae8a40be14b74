//! The bootstrap sequencer: the ordered start-up of the subsystems.
//!
//! The sequencer decides; its caller performs. `begin` hands out the next
//! step to run, `complete` takes what became of it. A step is handed out
//! only when the one before it has been completed, and a fatal failure ends
//! the sequence for good.

use vstd::prelude::*;

verus! {

/// The two switches for background maintenance. Both are on by default.
#[derive(Clone, Copy, Debug, PartialEq, Eq, Structural)]
pub struct MaintenanceFlags {
    pub enable_heal: bool,
    pub enable_scanner: bool,
}

impl MaintenanceFlags {
    /// Healing and scanning both enabled.
    pub fn all_enabled() -> (flags: Self)
        ensures
            flags.enable_heal,
            flags.enable_scanner,
    {
        MaintenanceFlags { enable_heal: true, enable_scanner: true }
    }
}

/// What decides which conditional steps run.
#[derive(Clone, Copy, Debug, PartialEq, Eq, Structural)]
pub struct BootstrapPlan {
    /// Whether the configuration holds a database section. Known once the
    /// configuration is loaded; `false` before.
    pub database_configured: bool,
    pub flags: MaintenanceFlags,
}

/// The number of steps in the canonical order.
pub const STEP_COUNT: u8 = 21;

/// One collaborator call of the start-up, in canonical order.
#[derive(Clone, Copy, Debug, PartialEq, Eq, Structural)]
pub enum Step {
    /// Load and validate the configuration.
    LoadConfig,
    /// Open the database connection pool. Runs only when a database section is configured.
    InitConnectionPool,
    /// Set up the tracing and metrics sink.
    InitObservability,
    /// Resolve and bind the network address.
    ResolveAddress,
    /// Compute the storage topology from the volume pattern.
    ComputeTopology,
    /// Open the local disk handles of the topology.
    InitLocalDisks,
    /// Start accepting connections.
    StartServingLayer,
    /// Bring up the storage engine on the topology.
    InitStorageEngine,
    /// Initialise the system configuration store.
    InitConfigStore,
    /// Start background replication.
    InitReplication,
    /// Start the event notifier.
    InitEventNotifier,
    /// Start the audit subsystem.
    StartAuditSystem,
    /// Enumerate the existing buckets.
    ListBuckets,
    /// Resume replication resynchronisation over the buckets.
    InitResync,
    /// Initialise bucket metadata over the buckets.
    InitBucketMetadata,
    /// Initialise identity and access management.
    InitIdentity,
    /// Wire up global notification.
    InitNotificationWiring,
    /// Start the heal manager. Runs only when healing is enabled.
    InitHealManager,
    /// Start the scanner, handing it the heal manager. Runs only when both healing and scanning are enabled.
    StartScannerWired,
    /// Start the scanner with no heal manager. Runs only when scanning is enabled and healing is not.
    StartScannerStandalone,
    /// Attach existing bucket notification rules. Its failure never stops start-up.
    Reconcile,
}

/// The classes of failure that a step can end in.
#[derive(Clone, Copy, Debug, PartialEq, Eq, Structural)]
pub enum FailureKind {
    /// Malformed configuration or a missing required section.
    Configuration,
    /// A pool, engine, topology or other prerequisite could not be reached.
    Connection,
    /// A maintenance subsystem that was asked for did not start.
    FeatureInit,
    /// A bucket's notification rules could not be attached.
    Reconciliation,
}

impl Step {
    /// The position of the step in the canonical order, from 0.
    pub open spec fn rank(self) -> nat {
        match self {
            Step::LoadConfig => 0,
            Step::InitConnectionPool => 1,
            Step::InitObservability => 2,
            Step::ResolveAddress => 3,
            Step::ComputeTopology => 4,
            Step::InitLocalDisks => 5,
            Step::StartServingLayer => 6,
            Step::InitStorageEngine => 7,
            Step::InitConfigStore => 8,
            Step::InitReplication => 9,
            Step::InitEventNotifier => 10,
            Step::StartAuditSystem => 11,
            Step::ListBuckets => 12,
            Step::InitResync => 13,
            Step::InitBucketMetadata => 14,
            Step::InitIdentity => 15,
            Step::InitNotificationWiring => 16,
            Step::InitHealManager => 17,
            Step::StartScannerWired => 18,
            Step::StartScannerStandalone => 19,
            Step::Reconcile => 20,
        }
    }

    /// The step at a position of the canonical order; the last step for any
    /// position past the end.
    pub open spec fn at(rank: nat) -> Step {
        if rank == 0 {
            Step::LoadConfig
        } else if rank == 1 {
            Step::InitConnectionPool
        } else if rank == 2 {
            Step::InitObservability
        } else if rank == 3 {
            Step::ResolveAddress
        } else if rank == 4 {
            Step::ComputeTopology
        } else if rank == 5 {
            Step::InitLocalDisks
        } else if rank == 6 {
            Step::StartServingLayer
        } else if rank == 7 {
            Step::InitStorageEngine
        } else if rank == 8 {
            Step::InitConfigStore
        } else if rank == 9 {
            Step::InitReplication
        } else if rank == 10 {
            Step::InitEventNotifier
        } else if rank == 11 {
            Step::StartAuditSystem
        } else if rank == 12 {
            Step::ListBuckets
        } else if rank == 13 {
            Step::InitResync
        } else if rank == 14 {
            Step::InitBucketMetadata
        } else if rank == 15 {
            Step::InitIdentity
        } else if rank == 16 {
            Step::InitNotificationWiring
        } else if rank == 17 {
            Step::InitHealManager
        } else if rank == 18 {
            Step::StartScannerWired
        } else if rank == 19 {
            Step::StartScannerStandalone
        } else {
            Step::Reconcile
        }
    }

    /// The stage, from 1 to 11, that the step belongs to.
    pub open spec fn stage_of(self) -> nat {
        match self {
            Step::LoadConfig => 1,
            Step::InitConnectionPool => 2,
            Step::InitObservability => 3,
            Step::ResolveAddress => 4,
            Step::ComputeTopology => 4,
            Step::InitLocalDisks => 5,
            Step::StartServingLayer => 6,
            Step::InitStorageEngine => 7,
            Step::InitConfigStore => 8,
            Step::InitReplication => 8,
            Step::InitEventNotifier => 8,
            Step::StartAuditSystem => 8,
            Step::ListBuckets => 9,
            Step::InitResync => 9,
            Step::InitBucketMetadata => 9,
            Step::InitIdentity => 9,
            Step::InitNotificationWiring => 9,
            Step::InitHealManager => 10,
            Step::StartScannerWired => 10,
            Step::StartScannerStandalone => 10,
            Step::Reconcile => 11,
        }
    }

    /// Whether a failure of the step ends start-up. Every step is fatal
    /// but the reconciliation pass.
    pub open spec fn fatal(self) -> bool {
        self != Step::Reconcile
    }

    /// Whether the step runs under a plan.
    pub open spec fn enabled_under(self, plan: BootstrapPlan) -> bool {
        match self {
            Step::InitConnectionPool => plan.database_configured,
            Step::InitHealManager => plan.flags.enable_heal,
            Step::StartScannerWired => plan.flags.enable_heal && plan.flags.enable_scanner,
            Step::StartScannerStandalone => !plan.flags.enable_heal && plan.flags.enable_scanner,
            _ => true,
        }
    }

    /// The class of a failure of the step, by its stage: stage 1 is
    /// configuration, stages 2 to 9 are connection, stage 10 is feature
    /// initialisation, stage 11 is reconciliation.
    pub open spec fn failure_kind_of(self) -> FailureKind {
        if self.stage_of() == 1 {
            FailureKind::Configuration
        } else if self.stage_of() <= 9 {
            FailureKind::Connection
        } else if self.stage_of() == 10 {
            FailureKind::FeatureInit
        } else {
            FailureKind::Reconciliation
        }
    }

    /// The position of the step in the canonical order, from 0.
    pub fn index(self) -> (i: u8)
        ensures
            i == self.rank(),
            i < STEP_COUNT,
    {
        match self {
            Step::LoadConfig => 0,
            Step::InitConnectionPool => 1,
            Step::InitObservability => 2,
            Step::ResolveAddress => 3,
            Step::ComputeTopology => 4,
            Step::InitLocalDisks => 5,
            Step::StartServingLayer => 6,
            Step::InitStorageEngine => 7,
            Step::InitConfigStore => 8,
            Step::InitReplication => 9,
            Step::InitEventNotifier => 10,
            Step::StartAuditSystem => 11,
            Step::ListBuckets => 12,
            Step::InitResync => 13,
            Step::InitBucketMetadata => 14,
            Step::InitIdentity => 15,
            Step::InitNotificationWiring => 16,
            Step::InitHealManager => 17,
            Step::StartScannerWired => 18,
            Step::StartScannerStandalone => 19,
            Step::Reconcile => 20,
        }
    }

    /// The step at a position of the canonical order.
    pub fn from_index(i: u8) -> (step: Option<Step>)
        ensures
            i < STEP_COUNT ==> step == Some(Step::at(i as nat)),
            i >= STEP_COUNT ==> step is None,
    {
        match i {
            0 => Some(Step::LoadConfig),
            1 => Some(Step::InitConnectionPool),
            2 => Some(Step::InitObservability),
            3 => Some(Step::ResolveAddress),
            4 => Some(Step::ComputeTopology),
            5 => Some(Step::InitLocalDisks),
            6 => Some(Step::StartServingLayer),
            7 => Some(Step::InitStorageEngine),
            8 => Some(Step::InitConfigStore),
            9 => Some(Step::InitReplication),
            10 => Some(Step::InitEventNotifier),
            11 => Some(Step::StartAuditSystem),
            12 => Some(Step::ListBuckets),
            13 => Some(Step::InitResync),
            14 => Some(Step::InitBucketMetadata),
            15 => Some(Step::InitIdentity),
            16 => Some(Step::InitNotificationWiring),
            17 => Some(Step::InitHealManager),
            18 => Some(Step::StartScannerWired),
            19 => Some(Step::StartScannerStandalone),
            20 => Some(Step::Reconcile),
            _ => None,
        }
    }

    /// The stage, from 1 to 11, that the step belongs to.
    pub fn stage(self) -> (s: u8)
        ensures
            s == self.stage_of(),
            1 <= s <= 11,
    {
        match self {
            Step::LoadConfig => 1,
            Step::InitConnectionPool => 2,
            Step::InitObservability => 3,
            Step::ResolveAddress => 4,
            Step::ComputeTopology => 4,
            Step::InitLocalDisks => 5,
            Step::StartServingLayer => 6,
            Step::InitStorageEngine => 7,
            Step::InitConfigStore => 8,
            Step::InitReplication => 8,
            Step::InitEventNotifier => 8,
            Step::StartAuditSystem => 8,
            Step::ListBuckets => 9,
            Step::InitResync => 9,
            Step::InitBucketMetadata => 9,
            Step::InitIdentity => 9,
            Step::InitNotificationWiring => 9,
            Step::InitHealManager => 10,
            Step::StartScannerWired => 10,
            Step::StartScannerStandalone => 10,
            Step::Reconcile => 11,
        }
    }

    /// Whether a failure of the step ends start-up.
    pub fn is_fatal(self) -> (b: bool)
        ensures
            b == self.fatal(),
    {
        match self {
            Step::Reconcile => false,
            _ => true,
        }
    }

    /// Whether the step runs under a plan.
    pub fn is_enabled(self, plan: &BootstrapPlan) -> (b: bool)
        ensures
            b == self.enabled_under(*plan),
    {
        match self {
            Step::InitConnectionPool => plan.database_configured,
            Step::InitHealManager => plan.flags.enable_heal,
            Step::StartScannerWired => plan.flags.enable_heal && plan.flags.enable_scanner,
            Step::StartScannerStandalone => !plan.flags.enable_heal && plan.flags.enable_scanner,
            _ => true,
        }
    }

    /// The class of a failure of the step.
    pub fn failure_kind(self) -> (kind: FailureKind)
        ensures
            kind == self.failure_kind_of(),
    {
        let stage = self.stage();
        if stage == 1 {
            FailureKind::Configuration
        } else if stage <= 9 {
            FailureKind::Connection
        } else if stage == 10 {
            FailureKind::FeatureInit
        } else {
            FailureKind::Reconciliation
        }
    }

    /// A short name for the subsystem that the step brings up.
    pub fn name(self) -> (text: &'static str)
        ensures
            text@ == Step::name_of(self)@,
    {
        match self {
            Step::LoadConfig => "load configuration",
            Step::InitConnectionPool => "connection pool",
            Step::InitObservability => "observability",
            Step::ResolveAddress => "network address",
            Step::ComputeTopology => "storage topology",
            Step::InitLocalDisks => "local disks",
            Step::StartServingLayer => "serving layer",
            Step::InitStorageEngine => "storage engine",
            Step::InitConfigStore => "configuration store",
            Step::InitReplication => "background replication",
            Step::InitEventNotifier => "event notifier",
            Step::StartAuditSystem => "audit system",
            Step::ListBuckets => "bucket enumeration",
            Step::InitResync => "replication resync",
            Step::InitBucketMetadata => "bucket metadata",
            Step::InitIdentity => "identity",
            Step::InitNotificationWiring => "notification wiring",
            Step::InitHealManager => "heal manager",
            Step::StartScannerWired => "scanner with heal manager",
            Step::StartScannerStandalone => "scanner without heal manager",
            Step::Reconcile => "bucket notification reconciliation",
        }
    }

    /// The name of a step, as a literal.
    pub open spec fn name_of(step: Step) -> &'static str {
        match step {
            Step::LoadConfig => "load configuration",
            Step::InitConnectionPool => "connection pool",
            Step::InitObservability => "observability",
            Step::ResolveAddress => "network address",
            Step::ComputeTopology => "storage topology",
            Step::InitLocalDisks => "local disks",
            Step::StartServingLayer => "serving layer",
            Step::InitStorageEngine => "storage engine",
            Step::InitConfigStore => "configuration store",
            Step::InitReplication => "background replication",
            Step::InitEventNotifier => "event notifier",
            Step::StartAuditSystem => "audit system",
            Step::ListBuckets => "bucket enumeration",
            Step::InitResync => "replication resync",
            Step::InitBucketMetadata => "bucket metadata",
            Step::InitIdentity => "identity",
            Step::InitNotificationWiring => "notification wiring",
            Step::InitHealManager => "heal manager",
            Step::StartScannerWired => "scanner with heal manager",
            Step::StartScannerStandalone => "scanner without heal manager",
            Step::Reconcile => "bucket notification reconciliation",
        }
    }
}

/// `at` undoes `rank`, and ranks stay below the number of steps.
pub proof fn lemma_rank_at(step: Step)
    ensures
        Step::at(step.rank()) == step,
        step.rank() < STEP_COUNT,
{
}

/// A later step never belongs to an earlier stage.
pub proof fn lemma_stage_follows_rank(a: Step, b: Step)
    requires
        a.rank() <= b.rank(),
    ensures
        a.stage_of() <= b.stage_of(),
{
}


/// The first position at or after `from` whose step runs under the plan;
/// `STEP_COUNT` when there is none.
pub open spec fn next_enabled(plan: BootstrapPlan, from: nat) -> nat
    decreases STEP_COUNT - from,
{
    if from >= STEP_COUNT {
        STEP_COUNT as nat
    } else if Step::at(from).enabled_under(plan) {
        from
    } else {
        next_enabled(plan, from + 1)
    }
}

/// `next_enabled` finds an enabled step, skips only disabled ones, and
/// always finds one while the last step is still ahead.
pub proof fn lemma_next_enabled(plan: BootstrapPlan, from: nat)
    requires
        from <= STEP_COUNT,
    ensures
        from <= next_enabled(plan, from) <= STEP_COUNT,
        from < STEP_COUNT ==> next_enabled(plan, from) < STEP_COUNT,
        next_enabled(plan, from) < STEP_COUNT ==> Step::at(next_enabled(plan, from)).enabled_under(plan),
        forall|r: nat| from <= r < next_enabled(plan, from) ==> !(#[trigger] Step::at(r)).enabled_under(plan),
    decreases STEP_COUNT - from,
{
    if from < STEP_COUNT && !Step::at(from).enabled_under(plan) {
        lemma_next_enabled(plan, from + 1);
    }
}

/// Which subsystems start-up has brought up so far, with the maintenance
/// flags as they were resolved when start-up began. Shutdown goes by this
/// record and reads no flag again.
#[derive(Clone, Copy, Debug, PartialEq, Eq, Structural)]
pub struct BootstrapContext {
    pub flags: MaintenanceFlags,
    pub serving_layer: bool,
    pub storage_engine: bool,
    pub replication_pool: bool,
    pub notification_system: bool,
    pub audit_system: bool,
    pub heal_manager: bool,
    pub scanner: bool,
}

/// Where a sequencer stands.
#[derive(Clone, Copy, Debug, PartialEq, Eq, Structural)]
pub enum Phase {
    /// The current step may be handed out.
    Ready,
    /// The current step was handed out and has not been completed.
    Waiting,
    /// The current step failed fatally. Nothing more will run.
    Aborted,
    /// Every step that the plan enables has been completed.
    Finished,
}

/// What became of a step.
#[derive(Debug, PartialEq, Eq)]
pub enum StepReport {
    /// The call returned without error.
    Succeeded,
    /// The configuration was loaded; says whether it has a database section.
    ConfigLoaded { database_configured: bool },
    /// The buckets were enumerated.
    BucketsListed { buckets: Vec<String> },
    /// The call returned an error.
    Failed,
}

impl StepReport {
    /// Whether the report is the success report of the step. Loading the
    /// configuration and listing the buckets have reports of their own;
    /// every other step succeeds with `Succeeded`. Any other report counts
    /// as a failure of the step.
    pub open spec fn succeeds(self, step: Step) -> bool {
        match step {
            Step::LoadConfig => self is ConfigLoaded,
            Step::ListBuckets => self is BucketsListed,
            _ => self is Succeeded,
        }
    }

    /// Whether the report is the success report of the step.
    pub fn is_success_of(&self, step: Step) -> (b: bool)
        ensures
            b == self.succeeds(step),
    {
        match step {
            Step::LoadConfig => match self {
                StepReport::ConfigLoaded { .. } => true,
                _ => false,
            },
            Step::ListBuckets => match self {
                StepReport::BucketsListed { .. } => true,
                _ => false,
            },
            _ => match self {
                StepReport::Succeeded => true,
                _ => false,
            },
        }
    }
}

/// The mathematical state of a sequencer.
pub struct SequencerView {
    pub plan: BootstrapPlan,
    /// The position of the current step; `STEP_COUNT` once finished.
    pub cursor: nat,
    pub phase: Phase,
    /// Whether a step that is not fatal has failed.
    pub degraded: bool,
    /// The buckets, once they were listed.
    pub buckets: Seq<String>,
}

impl SequencerView {
    /// The states that a sequencer can be in.
    pub open spec fn wf(self) -> bool {
        &&& self.cursor <= STEP_COUNT
        &&& (self.phase == Phase::Finished <==> self.cursor == STEP_COUNT)
        &&& (self.cursor < STEP_COUNT ==> Step::at(self.cursor).enabled_under(self.plan))
        &&& (self.cursor == 0 ==> !self.plan.database_configured)
        &&& (self.phase == Phase::Aborted ==> Step::at(self.cursor).fatal())
        &&& (self.degraded ==> self.phase == Phase::Finished)
        &&& (self.cursor <= Step::ListBuckets.rank() ==> self.buckets.len() == 0)
    }

    /// The state before anything has run.
    pub open spec fn initial(flags: MaintenanceFlags) -> SequencerView {
        SequencerView {
            plan: BootstrapPlan { database_configured: false, flags },
            cursor: 0,
            phase: Phase::Ready,
            degraded: false,
            buckets: Seq::empty(),
        }
    }

    /// The step that is ready, in flight or failed; none once finished.
    pub open spec fn current(self) -> Option<Step> {
        if self.cursor < STEP_COUNT {
            Some(Step::at(self.cursor))
        } else {
            None
        }
    }

    /// Whether a step has run and been passed.
    pub open spec fn completed(self, step: Step) -> bool {
        step.enabled_under(self.plan) && step.rank() < self.cursor
    }

    /// The record of what has been brought up.
    pub open spec fn context(self) -> BootstrapContext {
        BootstrapContext {
            flags: self.plan.flags,
            serving_layer: self.completed(Step::StartServingLayer),
            storage_engine: self.completed(Step::InitStorageEngine),
            replication_pool: self.completed(Step::InitReplication),
            notification_system: self.completed(Step::InitEventNotifier),
            audit_system: self.completed(Step::StartAuditSystem),
            heal_manager: self.completed(Step::InitHealManager),
            scanner: self.completed(Step::StartScannerWired) || self.completed(
                Step::StartScannerStandalone,
            ),
        }
    }

    /// Handing out a step: only a ready sequencer hands one out, and it
    /// then waits for the report.
    pub open spec fn begin(self) -> (SequencerView, Option<Step>) {
        if self.phase == Phase::Ready {
            (SequencerView { phase: Phase::Waiting, ..self }, Some(Step::at(self.cursor)))
        } else {
            (self, None)
        }
    }

    /// The plan after a report: the configuration report settles whether a
    /// database is configured.
    pub open spec fn plan_after(self, report: StepReport) -> BootstrapPlan {
        match report {
            StepReport::ConfigLoaded { database_configured } => BootstrapPlan {
                database_configured,
                flags: self.plan.flags,
            },
            _ => self.plan,
        }
    }

    /// The buckets after a report.
    pub open spec fn buckets_after(self, report: StepReport) -> Seq<String> {
        match report {
            StepReport::BucketsListed { buckets } => buckets@,
            _ => self.buckets,
        }
    }

    /// The state with the current step passed, under a plan.
    pub open spec fn advanced(self, plan: BootstrapPlan) -> SequencerView {
        let cursor = next_enabled(plan, self.cursor + 1);
        SequencerView {
            plan,
            cursor,
            phase: if cursor == STEP_COUNT {
                Phase::Finished
            } else {
                Phase::Ready
            },
            ..self
        }
    }

    /// Taking a report. Only a waiting sequencer takes one. Success moves
    /// on to the next enabled step; failure of a fatal step aborts; failure
    /// of any other step is noted and the sequence moves on.
    pub open spec fn complete(self, report: StepReport) -> SequencerView {
        if self.phase != Phase::Waiting {
            self
        } else if report.succeeds(Step::at(self.cursor)) {
            SequencerView { buckets: self.buckets_after(report), ..self }.advanced(
                self.plan_after(report),
            )
        } else if Step::at(self.cursor).fatal() {
            SequencerView { phase: Phase::Aborted, ..self }
        } else {
            SequencerView { degraded: true, ..self }.advanced(self.plan)
        }
    }
}

/// The first position at or after `from` whose step runs under the plan.
fn seek(plan: &BootstrapPlan, from: u8) -> (found: u8)
    requires
        from <= STEP_COUNT,
    ensures
        found == next_enabled(*plan, from as nat),
        from <= found <= STEP_COUNT,
{
    let mut at: u8 = from;
    loop
        invariant
            from <= at <= STEP_COUNT,
            next_enabled(*plan, from as nat) == next_enabled(*plan, at as nat),
        decreases STEP_COUNT - at,
    {
        match Step::from_index(at) {
            None => {
                return at;
            },
            Some(step) => {
                if step.is_enabled(plan) {
                    return at;
                }
                at = at + 1;
            },
        }
    }
}

/// The bootstrap sequencer.
#[derive(Debug, PartialEq, Eq)]
pub struct Sequencer {
    plan: BootstrapPlan,
    cursor: u8,
    phase: Phase,
    degraded: bool,
    buckets: Vec<String>,
}

impl View for Sequencer {
    type V = SequencerView;

    closed spec fn view(&self) -> SequencerView {
        SequencerView {
            plan: self.plan,
            cursor: self.cursor as nat,
            phase: self.phase,
            degraded: self.degraded,
            buckets: self.buckets@,
        }
    }
}

impl Sequencer {
    #[verifier::type_invariant]
    closed spec fn inv(self) -> bool {
        self@.wf()
    }

    /// A sequencer that has run nothing yet.
    pub fn new(flags: MaintenanceFlags) -> (s: Self)
        ensures
            s@ == SequencerView::initial(flags),
            s@.wf(),
    {
        Sequencer {
            plan: BootstrapPlan { database_configured: false, flags },
            cursor: 0,
            phase: Phase::Ready,
            degraded: false,
            buckets: Vec::new(),
        }
    }

    /// Hands out the next step to run, if the sequencer is ready for one.
    /// While a step is in flight, after an abort and once finished, there
    /// is none.
    pub fn begin(&mut self) -> (step: Option<Step>)
        ensures
            final(self)@ == old(self)@.begin().0,
            step == old(self)@.begin().1,
            old(self)@.wf(),
            final(self)@.wf(),
    {
        proof {
            use_type_invariant(&*self);
        }
        match self.phase {
            Phase::Ready => {
                self.phase = Phase::Waiting;
                Step::from_index(self.cursor)
            },
            _ => None,
        }
    }

    /// Takes the report of the step in flight. A sequencer that is not
    /// waiting for a report ignores it.
    pub fn complete(&mut self, report: StepReport)
        ensures
            final(self)@ == old(self)@.complete(report),
            old(self)@.wf(),
            final(self)@.wf(),
    {
        proof {
            use_type_invariant(&*self);
            if self@.cursor < STEP_COUNT {
                lemma_next_enabled(self@.plan_after(report), self@.cursor + 1);
                lemma_next_enabled(self@.plan, self@.cursor + 1);
            }
        }
        let step = match Step::from_index(self.cursor) {
            Some(step) => step,
            None => {
                return ;
            },
        };
        if self.phase != Phase::Waiting {
            return ;
        }
        let mut buckets: Vec<String> = Vec::new();
        core::mem::swap(&mut self.buckets, &mut buckets);
        if report.is_success_of(step) {
            let mut plan = self.plan;
            match report {
                StepReport::ConfigLoaded { database_configured } => {
                    plan = BootstrapPlan { database_configured, flags: self.plan.flags };
                },
                StepReport::BucketsListed { buckets: listed } => {
                    buckets = listed;
                },
                _ => {},
            }
            let cursor = seek(&plan, self.cursor + 1);
            let phase = if cursor == STEP_COUNT {
                Phase::Finished
            } else {
                Phase::Ready
            };
            *self = Sequencer { plan, cursor, phase, degraded: self.degraded, buckets };
        } else if step.is_fatal() {
            *self = Sequencer {
                plan: self.plan,
                cursor: self.cursor,
                phase: Phase::Aborted,
                degraded: self.degraded,
                buckets,
            };
        } else {
            let cursor = seek(&self.plan, self.cursor + 1);
            let phase = if cursor == STEP_COUNT {
                Phase::Finished
            } else {
                Phase::Ready
            };
            *self = Sequencer { plan: self.plan, cursor, phase, degraded: true, buckets };
        }
    }

    /// Where the sequencer stands.
    pub fn phase(&self) -> (p: Phase)
        ensures
            p == self@.phase,
    {
        self.phase
    }

    /// The plan as far as it is known.
    pub fn plan(&self) -> (p: BootstrapPlan)
        ensures
            p == self@.plan,
    {
        self.plan
    }

    /// The step that is ready, in flight or failed; none once finished.
    pub fn current(&self) -> (step: Option<Step>)
        ensures
            step == self@.current(),
    {
        Step::from_index(self.cursor)
    }

    /// The step whose fatal failure ended start-up, if one did.
    pub fn failure(&self) -> (step: Option<Step>)
        ensures
            step == if self@.phase == Phase::Aborted {
                self@.current()
            } else {
                None
            },
    {
        match self.phase {
            Phase::Aborted => Step::from_index(self.cursor),
            _ => None,
        }
    }

    /// Whether every enabled step has been passed.
    pub fn is_finished(&self) -> (b: bool)
        ensures
            b == (self@.phase == Phase::Finished),
    {
        self.phase == Phase::Finished
    }

    /// Whether a step that is not fatal has failed.
    pub fn is_degraded(&self) -> (b: bool)
        ensures
            b == self@.degraded,
    {
        self.degraded
    }

    /// Whether a step has run and been passed.
    pub fn has_completed(&self, step: Step) -> (b: bool)
        ensures
            b == self@.completed(step),
    {
        step.is_enabled(&self.plan) && step.index() < self.cursor
    }

    /// The record of what has been brought up.
    pub fn context(&self) -> (ctx: BootstrapContext)
        ensures
            ctx == self@.context(),
    {
        BootstrapContext {
            flags: self.plan.flags,
            serving_layer: self.has_completed(Step::StartServingLayer),
            storage_engine: self.has_completed(Step::InitStorageEngine),
            replication_pool: self.has_completed(Step::InitReplication),
            notification_system: self.has_completed(Step::InitEventNotifier),
            audit_system: self.has_completed(Step::StartAuditSystem),
            heal_manager: self.has_completed(Step::InitHealManager),
            scanner: self.has_completed(Step::StartScannerWired) || self.has_completed(
                Step::StartScannerStandalone,
            ),
        }
    }

    /// The buckets that were listed; empty before they were.
    pub fn buckets(&self) -> (names: &Vec<String>)
        ensures
            names@ == self@.buckets,
    {
        &self.buckets
    }
}


/// One call on a sequencer, as a value: the alphabet of its histories.
pub enum Call {
    /// A call of `begin`.
    Begin,
    /// A call of `complete` with a report.
    Complete(StepReport),
}

/// What a history shows of a step: that it was handed out, or that its
/// report was taken.
pub enum Event {
    Began(Step),
    Returned(Step),
}

impl Event {
    /// The step that the event is about.
    pub open spec fn step(self) -> Step {
        match self {
            Event::Began(step) => step,
            Event::Returned(step) => step,
        }
    }

    /// The canonical position of the step that the event is about.
    #[verifier::opaque]
    pub open spec fn position(self) -> nat {
        self.step().rank()
    }
}

impl SequencerView {
    /// The state after one call.
    #[verifier::opaque]
    pub open spec fn apply(self, call: Call) -> SequencerView {
        match call {
            Call::Begin => self.begin().0,
            Call::Complete(report) => self.complete(report),
        }
    }

    /// The event, if any, that one call adds to the history.
    #[verifier::opaque]
    pub open spec fn emits(self, call: Call) -> Option<Event> {
        match call {
            Call::Begin => if self.phase == Phase::Ready {
                Some(Event::Began(Step::at(self.cursor)))
            } else {
                None
            },
            Call::Complete(_) => if self.phase == Phase::Waiting {
                Some(Event::Returned(Step::at(self.cursor)))
            } else {
                None
            },
        }
    }

    /// The state after a sequence of calls.
    pub open spec fn run(self, calls: Seq<Call>) -> SequencerView
        decreases calls.len(),
    {
        if calls.len() == 0 {
            self
        } else {
            self.apply(calls[0]).run(calls.drop_first())
        }
    }

    /// The history that a sequence of calls leaves behind.
    pub open spec fn journal(self, calls: Seq<Call>) -> Seq<Event>
        decreases calls.len(),
    {
        if calls.len() == 0 {
            Seq::empty()
        } else {
            let rest = self.apply(calls[0]).journal(calls.drop_first());
            match self.emits(calls[0]) {
                Some(event) => seq![event] + rest,
                None => rest,
            }
        }
    }
}

/// A history in which no step begins while another is in flight, every
/// return answers the step begun just before it, and the steps begin in
/// canonical order.
pub open spec fn orderly(journal: Seq<Event>) -> bool {
    &&& forall|p: int, i: int|
        0 <= p && i == p + 1 && i < journal.len() && (#[trigger] journal[i]) is Began ==> (
        #[trigger] journal[p]) is Returned
    &&& forall|p: int, i: int|
        0 <= p && i == p + 1 && i < journal.len() && (#[trigger] journal[i]) is Returned ==> (
        #[trigger] journal[p]) == Event::Began(journal[i].step())
    &&& forall|i: int, k: int|
        0 <= i < k < journal.len() && (#[trigger] journal[i]) is Began && (
        #[trigger] journal[k]) is Began ==> journal[i].position() < journal[k].position()
}

/// What one call does: it keeps the sequencer well formed, never moves it
/// backwards, and adds at most one event, about the current step.
pub proof fn lemma_apply(s: SequencerView, call: Call)
    requires
        s.wf(),
    ensures
        s.apply(call).wf(),
        s.apply(call).cursor >= s.cursor,
        s.apply(call).plan.flags == s.plan.flags,
        s.cursor >= 1 ==> s.apply(call).plan == s.plan,
        match s.emits(call) {
            Some(Event::Began(step)) => {
                &&& s.phase == Phase::Ready
                &&& step == Step::at(s.cursor)
                &&& step.enabled_under(s.plan)
                &&& Event::Began(step).position() == s.cursor
                &&& s.apply(call).phase == Phase::Waiting
                &&& s.apply(call).cursor == s.cursor
            },
            Some(Event::Returned(step)) => {
                &&& s.phase == Phase::Waiting
                &&& step == Step::at(s.cursor)
                &&& Event::Returned(step).position() == s.cursor
                &&& s.apply(call).phase != Phase::Waiting
                &&& (s.apply(call).phase == Phase::Aborted || s.apply(call).cursor > s.cursor)
            },
            None => s.apply(call) == s,
        },
{
    reveal(SequencerView::apply);
    reveal(SequencerView::emits);
    reveal(Event::position);
    if s.cursor < STEP_COUNT {
        lemma_rank_at(Step::at(s.cursor));
        lemma_next_enabled(s.plan, s.cursor + 1);
        match call {
            Call::Complete(report) => {
                lemma_next_enabled(s.plan_after(report), s.cursor + 1);
            },
            _ => {},
        }
    }
}

/// Any sequence of calls keeps a sequencer well formed, never moves it
/// backwards, and leaves the maintenance flags as they were.
pub proof fn lemma_run(s: SequencerView, calls: Seq<Call>)
    requires
        s.wf(),
    ensures
        s.run(calls).wf(),
        s.run(calls).cursor >= s.cursor,
        s.run(calls).plan.flags == s.plan.flags,
        s.cursor >= 1 ==> s.run(calls).plan == s.plan,
    decreases calls.len(),
{
    if calls.len() > 0 {
        lemma_apply(s, calls[0]);
        lemma_run(s.apply(calls[0]), calls.drop_first());
    }
}

/// Well-formedness, kept folded while histories are reasoned about.
#[verifier::opaque]
spec fn steady(s: SequencerView) -> bool {
    s.wf()
}

/// What one call adds to a history, by position alone.
proof fn lemma_apply_by_position(s: SequencerView, call: Call)
    requires
        steady(s),
    ensures
        steady(s.apply(call)),
        s.apply(call).cursor >= s.cursor,
        match s.emits(call) {
            Some(event) => {
                &&& event.position() == s.cursor
                &&& event is Began ==> s.phase == Phase::Ready && event == Event::Began(
                    Step::at(s.cursor),
                ) && s.apply(call).phase == Phase::Waiting && s.apply(call).cursor == s.cursor
                &&& event is Returned ==> s.phase == Phase::Waiting && event == Event::Returned(
                    Step::at(s.cursor),
                ) && s.apply(call).phase != Phase::Waiting && (s.apply(call).phase
                    == Phase::Aborted || s.apply(call).cursor > s.cursor)
            },
            None => s.apply(call) == s,
        },
{
    reveal(steady);
    lemma_apply(s, call);
}

/// The shape of every history, stated from the state that it starts in.
proof fn lemma_journal(s: SequencerView, calls: Seq<Call>)
    requires
        steady(s),
    ensures
        orderly(s.journal(calls)),
        forall|i: int|
            0 <= i < s.journal(calls).len() ==> (#[trigger] s.journal(calls)[i]).position()
                >= s.cursor,
        forall|i: int|
            0 <= i < s.journal(calls).len() && s.phase == Phase::Waiting && (
            #[trigger] s.journal(calls)[i]) is Began ==> s.journal(calls)[i].position() > s.cursor,
        s.journal(calls).len() > 0 && s.phase == Phase::Ready ==> s.journal(calls)[0] is Began,
        s.journal(calls).len() > 0 && s.phase == Phase::Waiting ==> s.journal(calls)[0]
            == Event::Returned(Step::at(s.cursor)),
        s.phase == Phase::Aborted || s.phase == Phase::Finished ==> s.journal(calls).len() == 0,
        forall|i: int, k: int|
            0 <= i < k < s.journal(calls).len() ==> (#[trigger] s.journal(calls)[i]).position() <= (
            #[trigger] s.journal(calls)[k]).position(),
    decreases calls.len(),
{
    if calls.len() > 0 {
        let next = s.apply(calls[0]);
        let rest = next.journal(calls.drop_first());
        lemma_apply_by_position(s, calls[0]);
        lemma_journal(next, calls.drop_first());
        match s.emits(calls[0]) {
            Some(event) => {
                let j = seq![event] + rest;
                assert(s.journal(calls) == j);
                lemma_prepend(event, rest, s.cursor, next.cursor, s.phase, next.phase);
            },
            None => {
                assert(s.journal(calls) == rest);
            },
        }
    }
}

/// Putting the event of one call in front of an orderly history that
/// starts where the call left off gives an orderly history.
proof fn lemma_prepend(
    event: Event,
    rest: Seq<Event>,
    cursor: nat,
    next_cursor: nat,
    phase: Phase,
    next_phase: Phase,
)
    requires
        orderly(rest),
        event.position() == cursor,
        cursor <= next_cursor,
        event is Began ==> phase == Phase::Ready && next_phase == Phase::Waiting && next_cursor
            == cursor,
        event is Returned ==> phase == Phase::Waiting && next_phase != Phase::Waiting && (next_phase
            == Phase::Aborted || next_cursor > cursor),
        forall|i: int| 0 <= i < rest.len() ==> (#[trigger] rest[i]).position() >= next_cursor,
        forall|i: int|
            0 <= i < rest.len() && next_phase == Phase::Waiting && (#[trigger] rest[i]) is Began
                ==> rest[i].position() > next_cursor,
        rest.len() > 0 && next_phase == Phase::Ready ==> rest[0] is Began,
        rest.len() > 0 && next_phase == Phase::Waiting ==> rest[0] is Returned && rest[0].step()
            == event.step(),
        next_phase == Phase::Aborted || next_phase == Phase::Finished ==> rest.len() == 0,
        forall|i: int, k: int|
            0 <= i < k < rest.len() ==> (#[trigger] rest[i]).position() <= (
            #[trigger] rest[k]).position(),
    ensures
        orderly(seq![event] + rest),
        forall|i: int|
            0 <= i < (seq![event] + rest).len() ==> (#[trigger] (seq![event] + rest)[i]).position()
                >= cursor,
        forall|i: int|
            0 <= i < (seq![event] + rest).len() && phase == Phase::Waiting && (#[trigger] (seq![
                event,
            ] + rest)[i]) is Began ==> (seq![event] + rest)[i].position() > cursor,
        forall|i: int, k: int|
            0 <= i < k < (seq![event] + rest).len() ==> (#[trigger] (seq![event]
                + rest)[i]).position() <= (#[trigger] (seq![event] + rest)[k]).position(),
{
    let j = seq![event] + rest;
    assert(j[0] == event);
    assert(forall|i: int| 1 <= i < j.len() ==> #[trigger] j[i] == rest[i - 1]);
    assert forall|p: int, i: int|
        0 <= p && i == p + 1 && i < j.len() && (#[trigger] j[i]) is Began implies (
    #[trigger] j[p]) is Returned by {
        if p >= 1 {
            assert(rest[i - 1] is Began);
            assert(rest[p - 1] is Returned);
        }
    }
    assert forall|p: int, i: int|
        0 <= p && i == p + 1 && i < j.len() && (#[trigger] j[i]) is Returned implies (
    #[trigger] j[p]) == Event::Began(j[i].step()) by {
        if p >= 1 {
            assert(rest[i - 1] is Returned);
            assert(rest[p - 1] == Event::Began(rest[i - 1].step()));
        }
    }
    assert forall|i: int, k: int|
        0 <= i < k < j.len() && (#[trigger] j[i]) is Began && (#[trigger] j[k]) is Began implies j[i].position()
            < j[k].position() by {
        assert(j[k] == rest[k - 1]);
        if i >= 1 {
            assert(j[i] == rest[i - 1]);
        }
    }
    assert forall|i: int, k: int| 0 <= i < k < j.len() implies (#[trigger] j[i]).position() <= (
    #[trigger] j[k]).position() by {
        assert(j[k] == rest[k - 1]);
        if i >= 1 {
            assert(j[i] == rest[i - 1]);
        }
    }
    assert forall|i: int| 0 <= i < j.len() implies (#[trigger] j[i]).position() >= cursor by {
        if i >= 1 {
            assert(j[i] == rest[i - 1]);
        }
    }
    assert forall|i: int|
        0 <= i < j.len() && phase == Phase::Waiting && (#[trigger] j[i]) is Began implies j[i].position()
            > cursor by {
        if i >= 1 {
            assert(j[i] == rest[i - 1]);
        }
    }
}

/// However `begin` and `complete` are called, no step is handed out while
/// another is in flight, each report is taken for the step handed out just
/// before it, and the steps are handed out in canonical order. So a step of
/// a later stage begins only after every step begun before it has returned.
pub proof fn law_steps_never_overlap(s: SequencerView, calls: Seq<Call>)
    requires
        s.wf(),
    ensures
        orderly(s.journal(calls)),
        forall|i: int, k: int|
            0 <= i < k < s.journal(calls).len() ==> (#[trigger] s.journal(calls)[i]).step().stage_of()
                <= (#[trigger] s.journal(calls)[k]).step().stage_of(),
{
    assert(steady(s)) by {
        reveal(steady);
    }
    lemma_journal(s, calls);
    let j = s.journal(calls);
    assert forall|i: int, k: int| 0 <= i < k < j.len() implies (#[trigger] j[i]).step().stage_of()
        <= (#[trigger] j[k]).step().stage_of() by {
        assert(j[i].position() <= j[k].position());
        lemma_position_orders_stages(j[i], j[k]);
    }
}

/// After a fatal failure nothing runs: whatever is called next, no step is
/// handed out and the sequencer stays as it is.
pub proof fn law_nothing_follows_an_abort(s: SequencerView, calls: Seq<Call>)
    requires
        s.wf(),
        s.phase == Phase::Aborted,
    ensures
        s.journal(calls).len() == 0,
        s.run(calls) == s,
    decreases calls.len(),
{
    if calls.len() > 0 {
        reveal(SequencerView::apply);
        reveal(SequencerView::emits);
        assert(s.apply(calls[0]) == s);
        assert(s.emits(calls[0]) is None);
        law_nothing_follows_an_abort(s, calls.drop_first());
    }
}

/// Whether an event is no begin of a step that a plan disables.
#[verifier::opaque]
spec fn permitted(event: Event, plan: BootstrapPlan) -> bool {
    event is Began ==> event.step().enabled_under(plan)
}

proof fn lemma_begun_steps_are_enabled(s: SequencerView, calls: Seq<Call>)
    requires
        steady(s),
    ensures
        forall|i: int|
            0 <= i < s.journal(calls).len() ==> permitted(
                #[trigger] s.journal(calls)[i],
                s.run(calls).plan,
            ),
    decreases calls.len(),
{
    if calls.len() > 0 {
        let next = s.apply(calls[0]);
        let rest = next.journal(calls.drop_first());
        let plan = s.run(calls).plan;
        assert(s.run(calls) == next.run(calls.drop_first()));
        lemma_apply_by_position(s, calls[0]);
        lemma_begun_steps_are_enabled(next, calls.drop_first());
        match s.emits(calls[0]) {
            Some(event) => {
                let j = seq![event] + rest;
                assert(s.journal(calls) == j);
                assert(permitted(event, plan)) by {
                    reveal(steady);
                    reveal(permitted);
                    lemma_run(s, calls);
                }
                assert forall|i: int| 0 <= i < j.len() implies permitted(#[trigger] j[i], plan) by {
                    if i >= 1 {
                        assert(j[i] == rest[i - 1]);
                    }
                }
            },
            None => {
                assert(s.journal(calls) == rest);
            },
        }
    }
}

/// Only steps that the plan enables are ever handed out: the connection
/// pool only with a database section, the heal manager only when healing
/// is enabled, the scanner only when scanning is enabled, and then wired to
/// the heal manager exactly when healing is enabled too.
pub proof fn law_disabled_steps_never_begin(
    flags: MaintenanceFlags,
    calls: Seq<Call>,
    i: int,
)
    requires
        0 <= i < SequencerView::initial(flags).journal(calls).len(),
        SequencerView::initial(flags).journal(calls)[i] is Began,
    ensures
        SequencerView::initial(flags).journal(calls)[i].step().enabled_under(
            SequencerView::initial(flags).run(calls).plan,
        ),
        SequencerView::initial(flags).run(calls).plan.flags == flags,
{
    let s = SequencerView::initial(flags);
    assert(steady(s)) by {
        reveal(steady);
    }
    lemma_begun_steps_are_enabled(s, calls);
    lemma_run(s, calls);
    assert(permitted(s.journal(calls)[i], s.run(calls).plan));
    reveal(permitted);
}

/// With healing off and scanning on, the heal manager is never started and
/// the scanner never gets one; once start-up has finished, the scanner has
/// been started on its own.
pub proof fn law_scanner_runs_without_heal_manager(calls: Seq<Call>)
    ensures
        ({
            let flags = MaintenanceFlags { enable_heal: false, enable_scanner: true };
            let start = SequencerView::initial(flags);
            &&& forall|i: int|
                0 <= i < start.journal(calls).len() ==> (#[trigger] start.journal(calls)[i])
                    != Event::Began(Step::InitHealManager) && start.journal(calls)[i]
                    != Event::Began(Step::StartScannerWired)
            &&& !start.run(calls).completed(Step::InitHealManager)
            &&& !start.run(calls).completed(Step::StartScannerWired)
            &&& start.run(calls).phase == Phase::Finished ==> start.run(calls).completed(
                Step::StartScannerStandalone,
            )
        }),
{
    let flags = MaintenanceFlags { enable_heal: false, enable_scanner: true };
    let start = SequencerView::initial(flags);
    lemma_run(start, calls);
    assert forall|i: int| 0 <= i < start.journal(calls).len() implies (
    #[trigger] start.journal(calls)[i]) != Event::Began(Step::InitHealManager)
        && start.journal(calls)[i] != Event::Began(Step::StartScannerWired) by {
        if start.journal(calls)[i] is Began {
            law_disabled_steps_never_begin(flags, calls, i);
        }
    }
}

/// With healing and scanning both off, neither the heal manager nor the
/// scanner is ever started.
pub proof fn law_no_maintenance_when_disabled(calls: Seq<Call>)
    ensures
        ({
            let flags = MaintenanceFlags { enable_heal: false, enable_scanner: false };
            let start = SequencerView::initial(flags);
            &&& forall|i: int|
                0 <= i < start.journal(calls).len() ==> (#[trigger] start.journal(calls)[i])
                    != Event::Began(Step::InitHealManager) && start.journal(calls)[i]
                    != Event::Began(Step::StartScannerWired) && start.journal(calls)[i]
                    != Event::Began(Step::StartScannerStandalone)
            &&& !start.run(calls).completed(Step::InitHealManager)
            &&& !start.run(calls).completed(Step::StartScannerWired)
            &&& !start.run(calls).completed(Step::StartScannerStandalone)
        }),
{
    let flags = MaintenanceFlags { enable_heal: false, enable_scanner: false };
    let start = SequencerView::initial(flags);
    lemma_run(start, calls);
    assert forall|i: int| 0 <= i < start.journal(calls).len() implies (
    #[trigger] start.journal(calls)[i]) != Event::Began(Step::InitHealManager)
        && start.journal(calls)[i] != Event::Began(Step::StartScannerWired)
        && start.journal(calls)[i] != Event::Began(Step::StartScannerStandalone) by {
        if start.journal(calls)[i] is Began {
            law_disabled_steps_never_begin(flags, calls, i);
        }
    }
}

/// An event that is nowhere later in position is in no later stage.
proof fn lemma_position_orders_stages(a: Event, b: Event)
    requires
        a.position() <= b.position(),
    ensures
        a.step().stage_of() <= b.step().stage_of(),
{
    reveal(Event::position);
    lemma_stage_follows_rank(a.step(), b.step());
}

} // verus!
