//! The shutdown coordinator: cancellation and the bounded teardown that
//! follows a signal.
//!
//! Like the sequencer, the coordinator decides and its caller performs.
//! It asks only those subsystems to stop that start-up brought up, goes on
//! when a stop call fails, and ends with a fixed grace period, after which
//! the service counts as stopped whether or not every subsystem is done.

use crate::bootstrap::{BootstrapContext, SequencerView, Step};
use crate::cancel::CancellationScope;
use crate::state::{ServiceState, ServiceStateManager, ShutdownSignal};
use vstd::prelude::*;

verus! {

/// The length of the grace period, in seconds.
pub const SHUTDOWN_GRACE_SECS: u64 = 1;

/// The number of steps in the order of teardown.
pub const SHUTDOWN_STEP_COUNT: u8 = 6;

/// One call of the teardown, in the order in which they are made.
#[derive(Clone, Copy, Debug, PartialEq, Eq, Structural)]
pub enum ShutdownStep {
    /// Stop the scanner. Only if it was started.
    StopScanner,
    /// Stop the heal manager. Only if it was started.
    StopHealManager,
    /// Stop the event notifier. Only if it was started.
    StopEventNotifier,
    /// Stop the audit subsystem. Only if it was started.
    StopAuditSystem,
    /// Tell the serving layer to accept no more connections. Only if it
    /// was started.
    StopServingLayer,
    /// Wait for the grace period to pass.
    AwaitGracePeriod,
}

impl ShutdownStep {
    /// The position of the step in the order of teardown, from 0.
    pub open spec fn rank(self) -> nat {
        match self {
            ShutdownStep::StopScanner => 0,
            ShutdownStep::StopHealManager => 1,
            ShutdownStep::StopEventNotifier => 2,
            ShutdownStep::StopAuditSystem => 3,
            ShutdownStep::StopServingLayer => 4,
            ShutdownStep::AwaitGracePeriod => 5,
        }
    }

    /// The step at a position; the grace period for any position past it.
    pub open spec fn at(rank: nat) -> ShutdownStep {
        if rank == 0 {
            ShutdownStep::StopScanner
        } else if rank == 1 {
            ShutdownStep::StopHealManager
        } else if rank == 2 {
            ShutdownStep::StopEventNotifier
        } else if rank == 3 {
            ShutdownStep::StopAuditSystem
        } else if rank == 4 {
            ShutdownStep::StopServingLayer
        } else {
            ShutdownStep::AwaitGracePeriod
        }
    }

    /// Whether the step is due, given what start-up brought up. A stop is
    /// due exactly when its subsystem was started; the grace period always.
    pub open spec fn due_for(self, ctx: BootstrapContext) -> bool {
        match self {
            ShutdownStep::StopScanner => ctx.scanner,
            ShutdownStep::StopHealManager => ctx.heal_manager,
            ShutdownStep::StopEventNotifier => ctx.notification_system,
            ShutdownStep::StopAuditSystem => ctx.audit_system,
            ShutdownStep::StopServingLayer => ctx.serving_layer,
            ShutdownStep::AwaitGracePeriod => true,
        }
    }

    /// The position of the step in the order of teardown, from 0.
    pub fn index(self) -> (i: u8)
        ensures
            i == self.rank(),
            i < SHUTDOWN_STEP_COUNT,
    {
        match self {
            ShutdownStep::StopScanner => 0,
            ShutdownStep::StopHealManager => 1,
            ShutdownStep::StopEventNotifier => 2,
            ShutdownStep::StopAuditSystem => 3,
            ShutdownStep::StopServingLayer => 4,
            ShutdownStep::AwaitGracePeriod => 5,
        }
    }

    /// The step at a position of the order of teardown.
    pub fn from_index(i: u8) -> (step: Option<ShutdownStep>)
        ensures
            i < SHUTDOWN_STEP_COUNT ==> step == Some(ShutdownStep::at(i as nat)),
            i >= SHUTDOWN_STEP_COUNT ==> step is None,
    {
        match i {
            0 => Some(ShutdownStep::StopScanner),
            1 => Some(ShutdownStep::StopHealManager),
            2 => Some(ShutdownStep::StopEventNotifier),
            3 => Some(ShutdownStep::StopAuditSystem),
            4 => Some(ShutdownStep::StopServingLayer),
            5 => Some(ShutdownStep::AwaitGracePeriod),
            _ => None,
        }
    }

    /// Whether the step is due, given what start-up brought up.
    pub fn is_due(self, ctx: &BootstrapContext) -> (b: bool)
        ensures
            b == self.due_for(*ctx),
    {
        match self {
            ShutdownStep::StopScanner => ctx.scanner,
            ShutdownStep::StopHealManager => ctx.heal_manager,
            ShutdownStep::StopEventNotifier => ctx.notification_system,
            ShutdownStep::StopAuditSystem => ctx.audit_system,
            ShutdownStep::StopServingLayer => ctx.serving_layer,
            ShutdownStep::AwaitGracePeriod => true,
        }
    }
}

/// What the orchestrator knows of a subsystem: the step that brings it
/// up, with its stage and whether its failure is fatal, and the step, if
/// any, that stops it. Descriptors are data; the sequencer and the
/// coordinator treat every one alike.
#[derive(Clone, Copy, Debug, PartialEq, Eq, Structural)]
pub struct SubsystemDescriptor {
    pub start: Step,
    pub stage: u8,
    pub fatal: bool,
    pub stop: Option<ShutdownStep>,
}

/// The step of the teardown that undoes a step of start-up, for the steps
/// that have one.
pub open spec fn stop_action_of(step: Step) -> Option<ShutdownStep> {
    match step {
        Step::StartServingLayer => Some(ShutdownStep::StopServingLayer),
        Step::InitEventNotifier => Some(ShutdownStep::StopEventNotifier),
        Step::StartAuditSystem => Some(ShutdownStep::StopAuditSystem),
        Step::InitHealManager => Some(ShutdownStep::StopHealManager),
        Step::StartScannerWired => Some(ShutdownStep::StopScanner),
        Step::StartScannerStandalone => Some(ShutdownStep::StopScanner),
        _ => None,
    }
}

/// The step of the teardown that undoes a step of start-up.
pub fn stop_action(step: Step) -> (stop: Option<ShutdownStep>)
    ensures
        stop == stop_action_of(step),
{
    match step {
        Step::StartServingLayer => Some(ShutdownStep::StopServingLayer),
        Step::InitEventNotifier => Some(ShutdownStep::StopEventNotifier),
        Step::StartAuditSystem => Some(ShutdownStep::StopAuditSystem),
        Step::InitHealManager => Some(ShutdownStep::StopHealManager),
        Step::StartScannerWired => Some(ShutdownStep::StopScanner),
        Step::StartScannerStandalone => Some(ShutdownStep::StopScanner),
        _ => None,
    }
}

/// The descriptor of the subsystem that a step brings up.
pub fn describe(step: Step) -> (descriptor: SubsystemDescriptor)
    ensures
        descriptor.start == step,
        descriptor.stage == step.stage_of(),
        descriptor.fatal == step.fatal(),
        descriptor.stop == stop_action_of(step),
{
    SubsystemDescriptor {
        start: step,
        stage: step.stage(),
        fatal: step.is_fatal(),
        stop: stop_action(step),
    }
}

/// A stop is due exactly when a step that it undoes has been passed: the
/// record of what start-up brought up names the subsystems to stop, no
/// more and no fewer.
pub proof fn law_stops_mirror_starts(s: SequencerView, stop: ShutdownStep)
    requires
        stop != ShutdownStep::AwaitGracePeriod,
    ensures
        stop.due_for(s.context()) <==> exists|step: Step|
            #[trigger] stop_action_of(step) == Some(stop) && s.completed(step),
{
    if stop.due_for(s.context()) {
        let witness = match stop {
            ShutdownStep::StopScanner => if s.completed(Step::StartScannerWired) {
                Step::StartScannerWired
            } else {
                Step::StartScannerStandalone
            },
            ShutdownStep::StopHealManager => Step::InitHealManager,
            ShutdownStep::StopEventNotifier => Step::InitEventNotifier,
            ShutdownStep::StopAuditSystem => Step::StartAuditSystem,
            _ => Step::StartServingLayer,
        };
        assert(stop_action_of(witness) == Some(stop) && s.completed(witness));
    }
}

/// The first position at or after `from` whose step is due;
/// `SHUTDOWN_STEP_COUNT` when there is none.
pub open spec fn next_due(ctx: BootstrapContext, from: nat) -> nat
    decreases SHUTDOWN_STEP_COUNT - from,
{
    if from >= SHUTDOWN_STEP_COUNT {
        SHUTDOWN_STEP_COUNT as nat
    } else if ShutdownStep::at(from).due_for(ctx) {
        from
    } else {
        next_due(ctx, from + 1)
    }
}

/// `next_due` finds a step that is due, skips only steps that are not, and
/// always finds one while the grace period is still ahead.
pub proof fn lemma_next_due(ctx: BootstrapContext, from: nat)
    requires
        from <= SHUTDOWN_STEP_COUNT,
    ensures
        from <= next_due(ctx, from) <= SHUTDOWN_STEP_COUNT,
        from < SHUTDOWN_STEP_COUNT ==> next_due(ctx, from) < SHUTDOWN_STEP_COUNT,
        next_due(ctx, from) < SHUTDOWN_STEP_COUNT ==> ShutdownStep::at(next_due(ctx, from)).due_for(
            ctx,
        ),
    decreases SHUTDOWN_STEP_COUNT - from,
{
    if from < SHUTDOWN_STEP_COUNT && !ShutdownStep::at(from).due_for(ctx) {
        lemma_next_due(ctx, from + 1);
    }
}

/// Where a coordinator stands.
#[derive(Clone, Copy, Debug, PartialEq, Eq, Structural)]
pub enum ShutdownPhase {
    /// No signal has been taken.
    Idle,
    /// The current step may be handed out.
    Ready,
    /// The current step was handed out and has not returned.
    Waiting,
    /// The grace period has passed.
    Done,
}

/// The mathematical state of a coordinator.
pub struct CoordinatorView {
    pub ctx: BootstrapContext,
    /// The position of the current step; `SHUTDOWN_STEP_COUNT` once done.
    pub cursor: nat,
    pub phase: ShutdownPhase,
    /// How many steps have failed.
    pub failures: nat,
}

impl CoordinatorView {
    /// The states that a coordinator can be in.
    pub open spec fn wf(self) -> bool {
        &&& self.cursor <= SHUTDOWN_STEP_COUNT
        &&& (self.phase == ShutdownPhase::Done <==> self.cursor == SHUTDOWN_STEP_COUNT)
        &&& (self.cursor < SHUTDOWN_STEP_COUNT && self.phase != ShutdownPhase::Idle
            ==> ShutdownStep::at(self.cursor).due_for(self.ctx))
        &&& (self.phase == ShutdownPhase::Idle ==> self.cursor == 0 && self.failures == 0)
        &&& self.failures <= self.cursor
    }

    /// A coordinator that has taken no signal.
    pub open spec fn idle(ctx: BootstrapContext) -> CoordinatorView {
        CoordinatorView { ctx, cursor: 0, phase: ShutdownPhase::Idle, failures: 0 }
    }

    /// Whether a step has been made and has returned.
    pub open spec fn completed(self, step: ShutdownStep) -> bool {
        self.phase != ShutdownPhase::Idle && step.due_for(self.ctx) && step.rank() < self.cursor
    }

    /// Taking a signal. Only the first signal is taken: it makes the first
    /// due step ready. Any later one changes nothing.
    pub open spec fn trigger(self) -> (CoordinatorView, bool) {
        if self.phase == ShutdownPhase::Idle {
            (
                CoordinatorView {
                    cursor: next_due(self.ctx, 0),
                    phase: ShutdownPhase::Ready,
                    ..self
                },
                true,
            )
        } else {
            (self, false)
        }
    }

    /// Handing out a step: only a ready coordinator hands one out.
    pub open spec fn begin(self) -> (CoordinatorView, Option<ShutdownStep>) {
        if self.phase == ShutdownPhase::Ready {
            (
                CoordinatorView { phase: ShutdownPhase::Waiting, ..self },
                Some(ShutdownStep::at(self.cursor)),
            )
        } else {
            (self, None)
        }
    }

    /// Taking the return of the step in flight. A failure is counted and
    /// the teardown goes on all the same.
    pub open spec fn complete(self, succeeded: bool) -> CoordinatorView {
        if self.phase != ShutdownPhase::Waiting {
            self
        } else {
            let cursor = next_due(self.ctx, self.cursor + 1);
            CoordinatorView {
                ctx: self.ctx,
                cursor,
                phase: if cursor == SHUTDOWN_STEP_COUNT {
                    ShutdownPhase::Done
                } else {
                    ShutdownPhase::Ready
                },
                failures: if succeeded {
                    self.failures
                } else {
                    self.failures + 1
                },
            }
        }
    }
}

/// The first position at or after `from` whose step is due.
fn seek_due(ctx: &BootstrapContext, from: u8) -> (found: u8)
    requires
        from <= SHUTDOWN_STEP_COUNT,
    ensures
        found == next_due(*ctx, from as nat),
        from <= found <= SHUTDOWN_STEP_COUNT,
{
    let mut at: u8 = from;
    loop
        invariant
            from <= at <= SHUTDOWN_STEP_COUNT,
            next_due(*ctx, from as nat) == next_due(*ctx, at as nat),
        decreases SHUTDOWN_STEP_COUNT - at,
    {
        match ShutdownStep::from_index(at) {
            None => {
                return at;
            },
            Some(step) => {
                if step.is_due(ctx) {
                    return at;
                }
                at = at + 1;
            },
        }
    }
}

/// The shutdown coordinator.
#[derive(Debug)]
pub struct ShutdownCoordinator {
    ctx: BootstrapContext,
    cursor: u8,
    phase: ShutdownPhase,
    failures: u8,
}

impl View for ShutdownCoordinator {
    type V = CoordinatorView;

    closed spec fn view(&self) -> CoordinatorView {
        CoordinatorView {
            ctx: self.ctx,
            cursor: self.cursor as nat,
            phase: self.phase,
            failures: self.failures as nat,
        }
    }
}

impl ShutdownCoordinator {
    #[verifier::type_invariant]
    closed spec fn inv(self) -> bool {
        self@.wf()
    }

    /// A coordinator for what start-up brought up. It has taken no signal.
    pub fn new(ctx: BootstrapContext) -> (c: Self)
        ensures
            c@ == CoordinatorView::idle(ctx),
            c@.wf(),
    {
        ShutdownCoordinator { ctx, cursor: 0, phase: ShutdownPhase::Idle, failures: 0 }
    }

    /// Takes a signal. The first signal cancels the scope, publishes
    /// `Stopping` and makes the first due step ready; the result says
    /// whether this call was that one. Any later signal changes nothing:
    /// the scope is not cancelled again and no step is made again.
    pub fn trigger(
        &mut self,
        signal: ShutdownSignal,
        scope: &mut CancellationScope,
        state: &mut ServiceStateManager,
    ) -> (taken: bool)
        ensures
            final(self)@ == old(self)@.trigger().0,
            taken == old(self)@.trigger().1,
            taken ==> final(scope)@ && final(state)@ == ServiceState::Stopping,
            !taken ==> final(scope)@ == old(scope)@ && final(state)@ == old(state)@,
            final(scope).token() == old(scope).token(),
            old(self)@.wf(),
            final(self)@.wf(),
    {
        proof {
            use_type_invariant(&*self);
            lemma_next_due(self@.ctx, 0);
        }
        match self.phase {
            ShutdownPhase::Idle => {
                scope.cancel();
                state.update(ServiceState::Stopping);
                let cursor = seek_due(&self.ctx, 0);
                *self = ShutdownCoordinator {
                    ctx: self.ctx,
                    cursor,
                    phase: ShutdownPhase::Ready,
                    failures: self.failures,
                };
                true
            },
            _ => false,
        }
    }

    /// Hands out the next step of the teardown, if the coordinator is
    /// ready for one.
    pub fn begin(&mut self) -> (step: Option<ShutdownStep>)
        ensures
            final(self)@ == old(self)@.begin().0,
            step == old(self)@.begin().1,
            old(self)@.wf(),
            final(self)@.wf(),
    {
        proof {
            use_type_invariant(&*self);
        }
        match self.phase {
            ShutdownPhase::Ready => {
                self.phase = ShutdownPhase::Waiting;
                ShutdownStep::from_index(self.cursor)
            },
            _ => None,
        }
    }

    /// Takes the return of the step in flight; a coordinator that is not
    /// waiting ignores the call. When the step was the grace period, the
    /// teardown is done and `Stopped` is published. Until then the
    /// published state is left as it is.
    pub fn complete(&mut self, succeeded: bool, state: &mut ServiceStateManager)
        ensures
            final(self)@ == old(self)@.complete(succeeded),
            final(state)@ == if old(self)@.phase == ShutdownPhase::Waiting && final(self)@.phase
                == ShutdownPhase::Done {
                ServiceState::Stopped
            } else {
                old(state)@
            },
            old(self)@.wf(),
            final(self)@.wf(),
    {
        proof {
            use_type_invariant(&*self);
            if self@.cursor < SHUTDOWN_STEP_COUNT {
                lemma_next_due(self@.ctx, self@.cursor + 1);
            }
        }
        if self.phase != ShutdownPhase::Waiting {
            return ;
        }
        let cursor = seek_due(&self.ctx, self.cursor + 1);
        let failures = if succeeded {
            self.failures
        } else {
            self.failures + 1
        };
        if cursor == SHUTDOWN_STEP_COUNT {
            *self = ShutdownCoordinator {
                ctx: self.ctx,
                cursor,
                phase: ShutdownPhase::Done,
                failures,
            };
            state.update(ServiceState::Stopped);
        } else {
            *self = ShutdownCoordinator {
                ctx: self.ctx,
                cursor,
                phase: ShutdownPhase::Ready,
                failures,
            };
        }
    }

    /// Where the coordinator stands.
    pub fn phase(&self) -> (p: ShutdownPhase)
        ensures
            p == self@.phase,
    {
        self.phase
    }

    /// How many steps of the teardown have failed.
    pub fn failures(&self) -> (n: u8)
        ensures
            n == self@.failures,
    {
        self.failures
    }

    /// Whether a step has been made and has returned.
    pub fn has_completed(&self, step: ShutdownStep) -> (b: bool)
        ensures
            b == self@.completed(step),
    {
        self.phase != ShutdownPhase::Idle && step.is_due(&self.ctx) && step.index() < self.cursor
    }

    /// What start-up brought up, as the coordinator was told.
    pub fn context(&self) -> (ctx: BootstrapContext)
        ensures
            ctx == self@.ctx,
    {
        self.ctx
    }
}

/// Every transition keeps a coordinator well formed.
pub proof fn lemma_coordinator_stays_wf(c: CoordinatorView, succeeded: bool)
    requires
        c.wf(),
    ensures
        c.trigger().0.wf(),
        c.begin().0.wf(),
        c.complete(succeeded).wf(),
{
    lemma_next_due(c.ctx, 0);
    if c.cursor < SHUTDOWN_STEP_COUNT {
        lemma_next_due(c.ctx, c.cursor + 1);
    }
}

/// A stop call is made only to a subsystem that start-up brought up.
pub proof fn law_only_started_subsystems_are_stopped(c: CoordinatorView)
    requires
        c.wf(),
    ensures
        c.begin().1 matches Some(step) ==> step.due_for(c.ctx),
        !c.ctx.scanner ==> c.begin().1 != Some(ShutdownStep::StopScanner),
        !c.ctx.heal_manager ==> c.begin().1 != Some(ShutdownStep::StopHealManager),
{
}

/// The steps of the teardown are made one at a time and in order: while
/// one is in flight no other is handed out, and the step handed out after
/// it has returned comes later in the order, whether it failed or not.
pub proof fn law_teardown_goes_in_order(c: CoordinatorView, succeeded: bool)
    requires
        c.wf(),
        c.begin().1 is Some,
    ensures
        c.begin().0.begin().1 is None,
        c.begin().0.complete(succeeded).begin().1 matches Some(next) ==> c.begin().1->0.rank()
            < next.rank(),
{
    lemma_next_due(c.ctx, c.cursor + 1);
}

/// A second signal is a no-op: it is not taken, and the coordinator is
/// left exactly as the first signal left it.
pub proof fn law_second_signal_changes_nothing(c: CoordinatorView)
    requires
        c.wf(),
    ensures
        c.trigger().0.trigger() == (c.trigger().0, false),
{
    lemma_next_due(c.ctx, 0);
}

/// The teardown is done exactly when the grace period has been waited for,
/// never before.
pub proof fn law_done_only_after_grace(c: CoordinatorView)
    requires
        c.wf(),
    ensures
        c.phase == ShutdownPhase::Done <==> c.completed(ShutdownStep::AwaitGracePeriod),
{
}

} // verus!
