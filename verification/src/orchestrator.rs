//! Boot orchestrator: the launch state machine.
//!
//! The orchestrator owns the decisions of the launch sequence; the
//! surrounding binary performs the actions it emits (checking the host
//! capability, running the validator, creating the VM on its serial
//! execution context, reporting errors) and feeds the outcomes back as
//! events. The machine moves `Unstarted -> Validating -> Starting ->
//! Running`, or to `Failed` when validation or the asynchronous start
//! fails; an unsupported host ends the launch before anything is assembled.
//!
//! A validation failure exits the process; an asynchronous start failure is
//! only reported, and the indefinite idle loop that keeps the VM handle
//! alive carries on.

use vstd::prelude::*;

verus! {

/// The orchestrator's phase.
#[derive(Clone, Copy, PartialEq, Eq, Structural, Debug)]
pub enum Phase {
    /// The host lacks the virtualization capability; nothing is assembled,
    /// validated, or created.
    Unsupported,
    /// The capability is present; topology assembly has not completed yet.
    Unstarted,
    /// The synchronous validation pass is running.
    Validating,
    /// Validation passed; the VM exists and its asynchronous start is in
    /// flight.
    Starting,
    /// The start completed without error; the process idles for the VM's
    /// lifetime.
    Running,
    /// Validation or the asynchronous start failed.
    Failed,
}

/// What the surrounding binary must do next.
pub enum LaunchStep {
    /// Print `not supported` and exit cleanly.
    ReportNotSupported,
    /// Run the synchronous validation pass over the assembled configuration.
    RunValidator,
    /// Create the serial execution context and the VM from the validated
    /// configuration, and submit the asynchronous start.
    CreateAndStartVm,
    /// Report the carried error and exit: a synchronous stage failed.
    ReportErrorAndExit(String),
    /// Report the carried error but keep the idle loop going: the
    /// asynchronous start failed after the VM was created.
    ReportErrorAndKeepRunning(String),
    /// Keep the indefinite idle loop going; the VM is running.
    KeepRunning,
}

/// The boot orchestrator's state: its phase, how many times the validator
/// was invoked, and whether topology assembly finished and a VM was created.
pub struct Orchestrator {
    pub phase: Phase,
    /// How many times the validation pass has been invoked.
    pub validations: u64,
    /// Whether topology assembly has completed.
    pub assembled: bool,
    /// Whether a VM was created.
    pub vm_created: bool,
}

impl Orchestrator {
    /// The launch invariant. On an unsupported host nothing is ever
    /// assembled, validated, or created; a VM exists only after exactly one
    /// validation; and no phase runs the validator more than once.
    pub open spec fn wf(self) -> bool {
        match self.phase {
            Phase::Unsupported => !self.assembled && self.validations == 0 && !self.vm_created,
            Phase::Unstarted => !self.assembled && self.validations == 0 && !self.vm_created,
            Phase::Validating => self.assembled && self.validations == 1 && !self.vm_created,
            Phase::Starting => self.assembled && self.validations == 1 && self.vm_created,
            Phase::Running => self.assembled && self.validations == 1 && self.vm_created,
            Phase::Failed => self.assembled && self.validations == 1,
        }
    }

    /// Begins a launch after the host capability check: on a supported host
    /// the machine waits for topology assembly; on an unsupported host it
    /// ends at once, with `not supported` reported and nothing assembled,
    /// validated, or created.
    pub fn new(supported: bool) -> (r: (Orchestrator, Option<LaunchStep>))
        ensures
            r.0.wf(),
            r.0.validations == 0,
            !r.0.assembled,
            !r.0.vm_created,
            supported ==> r.0.phase == Phase::Unstarted && r.1 is None,
            !supported ==> r.0.phase == Phase::Unsupported
                && r.1 == Option::Some(LaunchStep::ReportNotSupported),
    {
        if supported {
            (
                Orchestrator {
                    phase: Phase::Unstarted,
                    validations: 0,
                    assembled: false,
                    vm_created: false,
                },
                Option::None,
            )
        } else {
            (
                Orchestrator {
                    phase: Phase::Unsupported,
                    validations: 0,
                    assembled: false,
                    vm_created: false,
                },
                Option::Some(LaunchStep::ReportNotSupported),
            )
        }
    }

    /// Topology assembly completed: the machine enters `Validating` and asks
    /// for the one synchronous validation pass.
    pub fn on_topology_assembled(&mut self) -> (step: LaunchStep)
        requires
            old(self).wf(),
            old(self).phase == Phase::Unstarted,
        ensures
            final(self).wf(),
            final(self).phase == Phase::Validating,
            final(self).validations == 1,
            final(self).assembled,
            !final(self).vm_created,
            step == LaunchStep::RunValidator,
    {
        self.phase = Phase::Validating;
        self.validations = 1;
        self.assembled = true;
        LaunchStep::RunValidator
    }

    /// The validation verdict arrived. On success the machine enters
    /// `Starting` and asks for the VM to be created and its start submitted;
    /// on failure it ends in `Failed` with the error reported and the
    /// process exiting, no VM ever created.
    pub fn on_validation_result(&mut self, verdict: Result<(), String>) -> (step: LaunchStep)
        requires
            old(self).wf(),
            old(self).phase == Phase::Validating,
        ensures
            final(self).wf(),
            final(self).validations == 1,
            match verdict {
                Result::Ok(()) => {
                    &&& final(self).phase == Phase::Starting
                    &&& final(self).vm_created
                    &&& step == LaunchStep::CreateAndStartVm
                },
                Result::Err(cause) => {
                    &&& final(self).phase == Phase::Failed
                    &&& !final(self).vm_created
                    &&& step == LaunchStep::ReportErrorAndExit(cause)
                },
            },
    {
        match verdict {
            Result::Ok(()) => {
                self.phase = Phase::Starting;
                self.vm_created = true;
                LaunchStep::CreateAndStartVm
            },
            Result::Err(cause) => {
                self.phase = Phase::Failed;
                LaunchStep::ReportErrorAndExit(cause)
            },
        }
    }

    /// The asynchronous start's completion callback fired. Without an error
    /// the machine is `Running` and the idle loop goes on; with an error the
    /// machine is `Failed`, the error is reported, and the idle loop still
    /// goes on: the process does not exit on this path.
    pub fn on_start_completion(&mut self, error: Option<String>) -> (step: LaunchStep)
        requires
            old(self).wf(),
            old(self).phase == Phase::Starting,
        ensures
            final(self).wf(),
            final(self).validations == 1,
            final(self).vm_created,
            match error {
                Option::None => {
                    &&& final(self).phase == Phase::Running
                    &&& step == LaunchStep::KeepRunning
                },
                Option::Some(cause) => {
                    &&& final(self).phase == Phase::Failed
                    &&& step == LaunchStep::ReportErrorAndKeepRunning(cause)
                },
            },
    {
        match error {
            Option::None => {
                self.phase = Phase::Running;
                LaunchStep::KeepRunning
            },
            Option::Some(cause) => {
                self.phase = Phase::Failed;
                LaunchStep::ReportErrorAndKeepRunning(cause)
            },
        }
    }
}

/// A VM exists only after the validator ran, and ran exactly once: in any
/// reachable orchestrator state with a created VM, the validation count is
/// one.
pub proof fn lemma_vm_created_after_single_validation(o: Orchestrator)
    requires
        o.wf(),
        o.vm_created,
    ensures
        o.validations == 1,
        o.assembled,
{
}

/// On an unsupported host nothing happens: in any reachable orchestrator
/// state on an unsupported host, no topology was assembled, the validator
/// never ran, and no VM was created.
pub proof fn lemma_unsupported_host_does_nothing(o: Orchestrator)
    requires
        o.wf(),
        o.phase == Phase::Unsupported,
    ensures
        !o.assembled,
        o.validations == 0,
        !o.vm_created,
{
}

} // verus!
