//! A fork executor whose harness works on a state that the executor exposes.
//!
//! Every run forks: the child calls the harness on the input and the
//! exposed state and exits; the parent waits for it and classifies how it
//! ended. Forking, waiting and exiting are the caller's part; the executor
//! says which of them comes next.

use core::time::Duration;
use vstd::prelude::*;
use crate::error::Error;
use crate::lifecycle::{ForkResult, Syscall};

verus! {

/// How a run of the target ended.
#[derive(Clone, Copy, Debug, PartialEq, Eq, Structural)]
pub enum ExitKind {
    /// The target ran to its end.
    Normal,
    /// The target was terminated by a signal.
    Crashed,
    /// The target ran longer than the caller allows.
    TimedOut,
}

/// Whether a raw wait status reports a child that a signal terminated.
pub open spec fn status_is_signaled(status: i32) -> bool {
    1 <= (status & 0x7f) <= 0x7e
}

/// The classification of a finished run, given its raw wait status and
/// whether the caller's own timer ran out on it.
pub open spec fn exit_kind_of(status: i32, timed_out: bool) -> ExitKind {
    if timed_out {
        ExitKind::TimedOut
    } else if status_is_signaled(status) {
        ExitKind::Crashed
    } else {
        ExitKind::Normal
    }
}

/// `libc::WIFSIGNALED`: true exactly when the low seven bits of the wait
/// status hold a signal number, that is, are neither zero (the child
/// exited) nor all set (the child stopped).
#[verifier::external_body]
fn wifsignaled(status: i32) -> (signaled: bool)
    ensures
        signaled == status_is_signaled(status),
{
    libc::WIFSIGNALED(status)
}

/// Classifies a finished run.
pub fn classify(status: i32, timed_out: bool) -> (kind: ExitKind)
    ensures
        kind == exit_kind_of(status, timed_out),
{
    if timed_out {
        ExitKind::TimedOut
    } else if wifsignaled(status) {
        ExitKind::Crashed
    } else {
        ExitKind::Normal
    }
}

/// Where a run stands.
#[derive(Clone, Copy, Debug, PartialEq, Eq, Structural)]
pub enum RunPhase {
    /// No run is under way.
    Idle,
    /// A fork was asked for.
    Forking,
    /// The parent waits for the child.
    Waiting,
    /// In the child: the harness has run and exit was asked for.
    Exiting,
}

/// The outcome of a system call made for a run; failures carry `errno`.
#[derive(Clone, Copy, Debug, PartialEq, Eq)]
pub enum RunReply {
    /// The fork returned.
    Forked(Result<ForkResult, i32>),
    /// The wait returned with this raw status; `timed_out` tells whether
    /// the caller's timer ran out while the child was running.
    Waited { outcome: Result<i32, i32>, timed_out: bool },
}

/// What a run says when it pauses or ends.
#[derive(Clone, Copy, Debug, PartialEq, Eq)]
pub enum RunProgress {
    /// Make this call and report its outcome to `resume`.
    Call(Syscall),
    /// The run is over.
    Finished(Result<ExitKind, Error>),
    /// The request does not fit the state; nothing changed.
    Failed(Error),
}

/// The part of the executor that does not depend on the harness.
#[derive(Debug)]
pub struct GenericInProcessForkExecutorInner<HT, OT, SP> {
    /// The hooks to run around the harness in the child.
    pub hooks: HT,
    /// The observers that the caller reads after a run.
    pub observers: OT,
    /// The provider of the memory shared between parent and child.
    pub shmem_provider: SP,
    /// How long the caller lets a run take.
    pub timeout: Duration,
}

/// An executor that forks the current process before each run and lets the
/// harness work on a state of the executor.
pub struct StatefulGenericInProcessForkExecutor<'a, ES, H, HT, OT, SP> {
    /// The harness, called once per run, in the child.
    harness_fn: &'a mut H,
    /// The state that the harness gets next to the input.
    pub exposed_executor_state: ES,
    /// Hooks, observers, shared memory and timeout.
    pub inner: GenericInProcessForkExecutorInner<HT, OT, SP>,
    phase: RunPhase,
}

/// The executor without hooks of its own.
pub type StatefulInProcessForkExecutor<'a, ES, H, OT, SP> = StatefulGenericInProcessForkExecutor<
    'a,
    ES,
    H,
    (),
    OT,
    SP,
>;

/// The start of a run, as a function of where the executor stands and of
/// the execution counter.
pub open spec fn run_target_spec(phase: RunPhase, executions: u64) -> (RunPhase, u64, RunProgress) {
    if phase != RunPhase::Idle {
        (phase, executions, RunProgress::Failed(Error::IllegalState))
    } else {
        (RunPhase::Forking, (executions + 1) as u64, RunProgress::Call(Syscall::Fork))
    }
}

/// How a run goes on after a system call, unless the fork made this process
/// the child: that case runs the harness and is described by `resume`.
pub open spec fn resume_spec(phase: RunPhase, reply: RunReply) -> (RunPhase, RunProgress) {
    match (phase, reply) {
        (RunPhase::Forking, RunReply::Forked(Ok(ForkResult::Parent(child)))) => (
            RunPhase::Waiting,
            RunProgress::Call(Syscall::Wait { pid: child.pid }),
        ),
        (RunPhase::Forking, RunReply::Forked(Ok(ForkResult::Child))) => (
            RunPhase::Exiting,
            RunProgress::Call(Syscall::Exit { code: 0 }),
        ),
        (RunPhase::Forking, RunReply::Forked(Err(errno))) => (
            RunPhase::Idle,
            RunProgress::Finished(Err(Error::System(errno))),
        ),
        (RunPhase::Waiting, RunReply::Waited { outcome: Ok(status), timed_out }) => (
            RunPhase::Idle,
            RunProgress::Finished(Ok(exit_kind_of(status, timed_out))),
        ),
        (RunPhase::Waiting, RunReply::Waited { outcome: Err(errno), timed_out }) => (
            RunPhase::Idle,
            RunProgress::Finished(Err(Error::System(errno))),
        ),
        _ => (phase, RunProgress::Failed(Error::IllegalState)),
    }
}

/// Whether `reply` makes the executor call its harness.
pub open spec fn runs_harness(phase: RunPhase, reply: RunReply) -> bool {
    phase == RunPhase::Forking && reply == RunReply::Forked(Ok(ForkResult::Child))
}

impl<'a, ES, H, OT, SP> StatefulInProcessForkExecutor<'a, ES, H, OT, SP> {
    /// Creates an executor without hooks.
    pub fn new(
        harness_fn: &'a mut H,
        exposed_executor_state: ES,
        observers: OT,
        timeout: Duration,
        shmem_provider: SP,
    ) -> (r: Result<Self, Error>)
        ensures
            r matches Ok(executor) && executor.harness_spec() == *old(harness_fn)
                && executor.exposed_state() == exposed_executor_state && executor.inner_spec()
                == (GenericInProcessForkExecutorInner {
                hooks: (),
                observers,
                shmem_provider,
                timeout,
            }) && executor.phase_spec() == RunPhase::Idle,
    {
        Self::with_hooks(
            (),
            harness_fn,
            exposed_executor_state,
            observers,
            timeout,
            shmem_provider,
        )
    }
}

impl<'a, ES, H, HT, OT, SP> StatefulGenericInProcessForkExecutor<'a, ES, H, HT, OT, SP> {
    /// The harness as it is now.
    pub closed spec fn harness_spec(&self) -> H {
        *self.harness_fn
    }

    /// The state that the harness works on.
    pub closed spec fn exposed_state(&self) -> ES {
        self.exposed_executor_state
    }

    /// Hooks, observers, shared memory and timeout.
    pub closed spec fn inner_spec(&self) -> GenericInProcessForkExecutorInner<HT, OT, SP> {
        self.inner
    }

    /// Where the current run stands.
    pub closed spec fn phase_spec(&self) -> RunPhase {
        self.phase
    }

    /// Creates an executor with custom hooks.
    pub fn with_hooks(
        userhooks: HT,
        harness_fn: &'a mut H,
        exposed_executor_state: ES,
        observers: OT,
        timeout: Duration,
        shmem_provider: SP,
    ) -> (r: Result<Self, Error>)
        ensures
            r matches Ok(executor) && executor.harness_spec() == *old(harness_fn)
                && executor.exposed_state() == exposed_executor_state && executor.inner_spec()
                == (GenericInProcessForkExecutorInner {
                hooks: userhooks,
                observers,
                shmem_provider,
                timeout,
            }) && executor.phase_spec() == RunPhase::Idle,
    {
        Ok(
            StatefulGenericInProcessForkExecutor {
                harness_fn,
                exposed_executor_state,
                inner: GenericInProcessForkExecutorInner {
                    hooks: userhooks,
                    observers,
                    shmem_provider,
                    timeout,
                },
                phase: RunPhase::Idle,
            },
        )
    }

    /// Retrieve the harness function.
    #[inline]
    pub fn harness(&self) -> (harness: &H)
        ensures
            *harness == self.harness_spec(),
    {
        self.harness_fn
    }

    /// Retrieve the harness function for a mutable reference.
    #[inline]
    pub fn harness_mut(&mut self) -> (harness: &mut H)
        ensures
            *harness == old(self).harness_spec(),
            final(self).harness_spec() == *final(harness),
            final(self).exposed_state() == old(self).exposed_state(),
            final(self).inner_spec() == old(self).inner_spec(),
            final(self).phase_spec() == old(self).phase_spec(),
    {
        self.harness_fn
    }

    /// Where the current run stands.
    pub fn phase(&self) -> (phase: RunPhase)
        ensures
            phase == self.phase_spec(),
    {
        self.phase
    }

    /// Begins a run: counts it and asks for the fork.
    ///
    /// The run is counted here, in the parent, before anything can fail.
    pub fn run_target(&mut self, executions: &mut u64) -> (progress: RunProgress)
        requires
            *old(executions) < u64::MAX,
        ensures
            (final(self).phase_spec(), *final(executions), progress) == run_target_spec(
                old(self).phase_spec(),
                *old(executions),
            ),
            final(self).harness_spec() == old(self).harness_spec(),
            final(self).exposed_state() == old(self).exposed_state(),
            final(self).inner_spec() == old(self).inner_spec(),
    {
        if self.phase != RunPhase::Idle {
            return RunProgress::Failed(Error::IllegalState);
        }
        *executions += 1;
        self.phase = RunPhase::Forking;
        RunProgress::Call(Syscall::Fork)
    }

    /// Takes the outcome of the call handed out last and says how the run
    /// goes on.
    ///
    /// In the child the harness is called on the exposed state and `input`,
    /// and exit is asked for. In the parent the child is waited for, and
    /// its wait status decides how the run is classified.
    pub fn resume<I>(&mut self, reply: RunReply, input: &I) -> (progress: RunProgress) where
        H: FnMut(&mut ES, &I) -> ExitKind,

        requires
            forall|harness: H, state: &mut ES, input: &I| call_requires(harness, (state, input)),
        ensures
            (final(self).phase_spec(), progress) == resume_spec(old(self).phase_spec(), reply),
            final(self).inner_spec() == old(self).inner_spec(),
            !runs_harness(old(self).phase_spec(), reply) ==> final(self).harness_spec() == old(
                self,
            ).harness_spec() && final(self).exposed_state() == old(self).exposed_state(),
            runs_harness(old(self).phase_spec(), reply) ==> exists|state: &mut ES, kind: ExitKind|
                #[trigger] call_ensures(old(self).harness_spec(), (state, input), kind) && *state
                    == old(self).exposed_state() && *final(state) == final(self).exposed_state(),
    {
        broadcast use vstd::function::group_function_axioms;

        match (self.phase, reply) {
            (RunPhase::Forking, RunReply::Forked(Ok(ForkResult::Parent(child)))) => {
                self.phase = RunPhase::Waiting;
                RunProgress::Call(Syscall::Wait { pid: child.pid })
            },
            (RunPhase::Forking, RunReply::Forked(Ok(ForkResult::Child))) => {
                let ghost harness = *self.harness_fn;
                let ghost before = self.exposed_executor_state;
                let kind = (self.harness_fn)(&mut self.exposed_executor_state, input);
                assert(exists|state: &mut ES|
                    #[trigger] call_ensures(harness, (state, input), kind) && *state == before
                        && *final(state) == self.exposed_executor_state);
                self.phase = RunPhase::Exiting;
                assert(harness == old(self).harness_spec());
                assert(before == old(self).exposed_state());
                assert(exists|state: &mut ES|
                    #[trigger] call_ensures(old(self).harness_spec(), (state, input), kind)
                        && *state == old(self).exposed_state() && *final(state)
                        == self.exposed_state());
                RunProgress::Call(Syscall::Exit { code: 0 })
            },
            (RunPhase::Forking, RunReply::Forked(Err(errno))) => {
                self.phase = RunPhase::Idle;
                RunProgress::Finished(Err(Error::System(errno)))
            },
            (RunPhase::Waiting, RunReply::Waited { outcome: Ok(status), timed_out }) => {
                self.phase = RunPhase::Idle;
                RunProgress::Finished(Ok(classify(status, timed_out)))
            },
            (RunPhase::Waiting, RunReply::Waited { outcome: Err(errno), timed_out: _ }) => {
                self.phase = RunPhase::Idle;
                RunProgress::Finished(Err(Error::System(errno)))
            },
            _ => RunProgress::Failed(Error::IllegalState),
        }
    }
}

} // verus!
