//! The orchestrator: the sequencer, the coordinator, the published state
//! and the cancellation scope, held together.
//!
//! Its caller runs the loop: it asks for a step, performs it and hands back
//! what became of it. The published state is `Starting` until start-up has
//! finished, then `Running`, `Stopping` from the signal, `Stopped` at last.

use crate::bootstrap::{
    lemma_apply, BootstrapContext, Call, MaintenanceFlags, Phase, Sequencer, SequencerView, Step,
    StepReport,
};
use crate::cancel::CancellationScope;
use crate::shutdown::{
    lemma_coordinator_stays_wf, CoordinatorView, ShutdownCoordinator, ShutdownPhase, ShutdownStep,
};
use crate::state::{ServiceState, ServiceStateManager, ShutdownSignal};
use tokio_util::sync::CancellationToken;
use vstd::prelude::*;

verus! {

/// The mathematical state of an orchestrator.
pub struct OrchestratorView {
    /// The published state.
    pub state: ServiceState,
    /// Whether the scope has been cancelled.
    pub cancelled: bool,
    pub bootstrap: SequencerView,
    pub shutdown: CoordinatorView,
}

impl OrchestratorView {
    /// The state that goes with the progress of start-up while no signal
    /// has been taken.
    pub open spec fn state_before_signal(bootstrap: SequencerView) -> ServiceState {
        if bootstrap.phase == Phase::Finished {
            ServiceState::Running
        } else {
            ServiceState::Starting
        }
    }

    /// The states that an orchestrator can be in.
    pub open spec fn wf(self) -> bool {
        &&& self.bootstrap.wf()
        &&& self.shutdown.wf()
        &&& match self.shutdown.phase {
            ShutdownPhase::Idle => !self.cancelled && self.state == Self::state_before_signal(
                self.bootstrap,
            ),
            ShutdownPhase::Ready | ShutdownPhase::Waiting => self.cancelled && self.state
                == ServiceState::Stopping,
            ShutdownPhase::Done => self.cancelled && self.state == ServiceState::Stopped,
        }
        &&& (self.shutdown.phase != ShutdownPhase::Idle ==> self.shutdown.ctx
            == self.bootstrap.context() && self.bootstrap.phase != Phase::Waiting)
    }

    /// The state at process entry.
    pub open spec fn initial(flags: MaintenanceFlags) -> OrchestratorView {
        OrchestratorView {
            state: ServiceState::Starting,
            cancelled: false,
            bootstrap: SequencerView::initial(flags),
            shutdown: CoordinatorView::idle(SequencerView::initial(flags).context()),
        }
    }

    /// Asking for the next step of start-up. Once a signal has been taken
    /// there is none.
    pub open spec fn next_step(self) -> (OrchestratorView, Option<Step>) {
        if self.shutdown.phase == ShutdownPhase::Idle {
            (OrchestratorView { bootstrap: self.bootstrap.begin().0, ..self }, self.bootstrap.begin().1)
        } else {
            (self, None)
        }
    }

    /// Handing back what became of a step of start-up. When that finishes
    /// start-up, `Running` is published.
    pub open spec fn step_finished(self, report: StepReport) -> OrchestratorView {
        if self.shutdown.phase == ShutdownPhase::Idle {
            OrchestratorView {
                bootstrap: self.bootstrap.complete(report),
                state: if self.bootstrap.complete(report).phase == Phase::Finished {
                    ServiceState::Running
                } else {
                    self.state
                },
                ..self
            }
        } else {
            self
        }
    }

    /// Whether a signal would be taken now: none has been taken before,
    /// and no step of start-up is in flight.
    pub open spec fn takes_signal(self) -> bool {
        self.shutdown.phase == ShutdownPhase::Idle && self.bootstrap.phase != Phase::Waiting
    }

    /// Taking a signal: the scope is cancelled, `Stopping` is published,
    /// and the teardown is laid out for what start-up has brought up.
    pub open spec fn signal(self) -> (OrchestratorView, bool) {
        if self.takes_signal() {
            (
                OrchestratorView {
                    state: ServiceState::Stopping,
                    cancelled: true,
                    bootstrap: self.bootstrap,
                    shutdown: CoordinatorView::idle(self.bootstrap.context()).trigger().0,
                },
                true,
            )
        } else {
            (self, false)
        }
    }

    /// Asking for the next step of the teardown.
    pub open spec fn next_shutdown_step(self) -> (OrchestratorView, Option<ShutdownStep>) {
        (OrchestratorView { shutdown: self.shutdown.begin().0, ..self }, self.shutdown.begin().1)
    }

    /// Handing back the return of a step of the teardown. When that was
    /// the grace period, `Stopped` is published.
    pub open spec fn shutdown_step_finished(self, succeeded: bool) -> OrchestratorView {
        let shutdown = self.shutdown.complete(succeeded);
        OrchestratorView {
            shutdown,
            state: if self.shutdown.phase == ShutdownPhase::Waiting && shutdown.phase
                == ShutdownPhase::Done {
                ServiceState::Stopped
            } else {
                self.state
            },
            ..self
        }
    }
}

/// The service lifecycle orchestrator. Every orchestrator that `new` makes
/// is well formed and every method keeps a well-formed one so; the fields
/// are private, so there is no other kind.
pub struct Orchestrator {
    state: ServiceStateManager,
    scope: CancellationScope,
    sequencer: Sequencer,
    coordinator: ShutdownCoordinator,
}

impl View for Orchestrator {
    type V = OrchestratorView;

    closed spec fn view(&self) -> OrchestratorView {
        OrchestratorView {
            state: self.state@,
            cancelled: self.scope@,
            bootstrap: self.sequencer@,
            shutdown: self.coordinator@,
        }
    }
}

impl Orchestrator {
    /// An orchestrator at process entry: nothing has run, the state is
    /// `Starting`, the scope is not cancelled.
    pub fn new(flags: MaintenanceFlags) -> (o: Self)
        ensures
            o@ == OrchestratorView::initial(flags),
            o@.wf(),
    {
        let sequencer = Sequencer::new(flags);
        let coordinator = ShutdownCoordinator::new(sequencer.context());
        Orchestrator {
            state: ServiceStateManager::new(),
            scope: CancellationScope::new(),
            sequencer,
            coordinator,
        }
    }

    /// The next step of start-up to perform, if there is one now.
    pub fn next_step(&mut self) -> (step: Option<Step>)
        ensures
            final(self)@ == old(self)@.next_step().0,
            step == old(self)@.next_step().1,
            old(self)@.wf() ==> final(self)@.wf(),
            final(self).token() == old(self).token(),
    {
        match self.coordinator.phase() {
            ShutdownPhase::Idle => self.sequencer.begin(),
            _ => None,
        }
    }

    /// Takes what became of the step of start-up in flight.
    pub fn step_finished(&mut self, report: StepReport)
        ensures
            final(self)@ == old(self)@.step_finished(report),
            old(self)@.wf() ==> final(self)@.wf(),
            final(self).token() == old(self).token(),
    {
        match self.coordinator.phase() {
            ShutdownPhase::Idle => {
                self.sequencer.complete(report);
                if self.sequencer.is_finished() {
                    self.state.update(ServiceState::Running);
                }
            },
            _ => {},
        }
    }

    /// Takes a shutdown signal, of either kind. The result says whether
    /// it was taken. A signal is taken once, and not while a step of
    /// start-up is in flight: ask again when that step has returned.
    pub fn signal(&mut self, signal: ShutdownSignal) -> (taken: bool)
        ensures
            final(self)@ == old(self)@.signal().0,
            taken == old(self)@.signal().1,
            old(self)@.wf() ==> final(self)@.wf(),
            final(self).token() == old(self).token(),
    {
        let idle = match self.coordinator.phase() {
            ShutdownPhase::Idle => true,
            _ => false,
        };
        let in_flight = match self.sequencer.phase() {
            Phase::Waiting => true,
            _ => false,
        };
        if idle && !in_flight {
            self.coordinator = ShutdownCoordinator::new(self.sequencer.context());
            self.coordinator.trigger(signal, &mut self.scope, &mut self.state)
        } else {
            false
        }
    }

    /// The next step of the teardown to perform, if there is one now.
    pub fn next_shutdown_step(&mut self) -> (step: Option<ShutdownStep>)
        ensures
            final(self)@ == old(self)@.next_shutdown_step().0,
            step == old(self)@.next_shutdown_step().1,
            old(self)@.wf() ==> final(self)@.wf(),
            final(self).token() == old(self).token(),
    {
        self.coordinator.begin()
    }

    /// Takes the return of the step of the teardown in flight.
    pub fn shutdown_step_finished(&mut self, succeeded: bool)
        ensures
            final(self)@ == old(self)@.shutdown_step_finished(succeeded),
            old(self)@.wf() ==> final(self)@.wf(),
            final(self).token() == old(self).token(),
    {
        self.coordinator.complete(succeeded, &mut self.state);
    }

    /// The published state. Never blocks.
    pub fn current_state(&self) -> (s: ServiceState)
        ensures
            s == self@.state,
    {
        self.state.current_state()
    }

    /// Whether the scope has been cancelled.
    pub fn is_cancelled(&self) -> (b: bool)
        ensures
            b == self@.cancelled,
    {
        self.scope.is_cancelled()
    }

    /// A handle on the scope's token, for a subsystem to watch.
    pub fn cancellation_handle(&self) -> (handle: CancellationToken)
        ensures
            handle == self.token(),
    {
        self.scope.handle()
    }

    /// The token of the orchestrator's scope. It is the same through every
    /// call, so a handle taken at any time is cancelled when a signal is.
    pub closed spec fn token(&self) -> CancellationToken {
        self.scope.token()
    }

    /// The step whose fatal failure ended start-up, if one did.
    pub fn failure(&self) -> (step: Option<Step>)
        ensures
            step == if self@.bootstrap.phase == Phase::Aborted {
                self@.bootstrap.current()
            } else {
                None
            },
    {
        self.sequencer.failure()
    }

    /// The record of what start-up has brought up.
    pub fn context(&self) -> (ctx: BootstrapContext)
        ensures
            ctx == self@.bootstrap.context(),
    {
        self.sequencer.context()
    }

    /// The sequencer, to read.
    pub fn sequencer(&self) -> (s: &Sequencer)
        ensures
            s@ == self@.bootstrap,
    {
        &self.sequencer
    }

    /// The coordinator, to read.
    pub fn coordinator(&self) -> (c: &ShutdownCoordinator)
        ensures
            c@ == self@.shutdown,
    {
        &self.coordinator
    }
}

/// Well-formedness is an invariant: an orchestrator starts well formed
/// and every transition keeps it so. What is stated of well-formed
/// orchestrators below therefore holds at every point of every run.
pub proof fn law_every_transition_keeps_well_formed(o: OrchestratorView, report: StepReport, succeeded: bool)
    requires
        o.wf(),
    ensures
        OrchestratorView::initial(o.bootstrap.plan.flags).wf(),
        o.next_step().0.wf(),
        o.step_finished(report).wf(),
        o.signal().0.wf(),
        o.next_shutdown_step().0.wf(),
        o.shutdown_step_finished(succeeded).wf(),
{
    lemma_apply(o.bootstrap, Call::Begin);
    lemma_apply(o.bootstrap, Call::Complete(report));
    reveal(SequencerView::apply);
    lemma_coordinator_stays_wf(o.shutdown, succeeded);
    lemma_coordinator_stays_wf(CoordinatorView::idle(o.bootstrap.context()), succeeded);
}

/// A signal to a running service is taken at once: the scope is
/// cancelled and the published state is `Stopping`.
pub proof fn law_signal_publishes_stopping(o: OrchestratorView)
    requires
        o.wf(),
        o.state == ServiceState::Running,
    ensures
        o.signal().1,
        o.signal().0.state == ServiceState::Stopping,
        o.signal().0.cancelled,
{
}

/// The published state is `Stopped` exactly when the grace period has been
/// waited for: never before it has passed, and always once it has.
pub proof fn law_stopped_only_after_grace(o: OrchestratorView)
    requires
        o.wf(),
    ensures
        o.state == ServiceState::Stopped <==> o.shutdown.completed(ShutdownStep::AwaitGracePeriod),
{
}

/// From a signal until the grace period has passed the published state is
/// `Stopping`, whatever steps of the teardown are handed out or returned.
pub proof fn law_stopping_until_grace(o: OrchestratorView)
    requires
        o.wf(),
    ensures
        o.shutdown.phase == ShutdownPhase::Ready || o.shutdown.phase == ShutdownPhase::Waiting
            <==> o.state == ServiceState::Stopping,
{
}

/// A second signal is a no-op: it is not taken, the scope is not
/// cancelled again, and no step of the teardown is made again.
pub proof fn law_signal_is_taken_once(o: OrchestratorView)
    requires
        o.wf(),
        o.signal().1,
    ensures
        o.signal().0.signal() == (o.signal().0, false),
{
    lemma_coordinator_stays_wf(CoordinatorView::idle(o.bootstrap.context()), true);
}

/// With healing and scanning both off, the teardown never asks the scanner
/// or the heal manager to stop.
pub proof fn law_no_stop_for_disabled_maintenance(o: OrchestratorView)
    requires
        o.wf(),
        !o.bootstrap.plan.flags.enable_heal,
        !o.bootstrap.plan.flags.enable_scanner,
    ensures
        o.next_shutdown_step().1 != Some(ShutdownStep::StopScanner),
        o.next_shutdown_step().1 != Some(ShutdownStep::StopHealManager),
{
}

/// A subsystem of maintenance that was never started is never asked to
/// stop, whatever the flags.
pub proof fn law_unstarted_maintenance_is_not_stopped(o: OrchestratorView)
    requires
        o.wf(),
    ensures
        o.next_shutdown_step().1 == Some(ShutdownStep::StopScanner) ==> o.bootstrap.context().scanner,
        o.next_shutdown_step().1 == Some(ShutdownStep::StopHealManager)
            ==> o.bootstrap.context().heal_manager,
{
}

} // verus!
