//! The process lifecycle manager: which system call comes next, and what
//! its outcome means for the child this process looks after.
//!
//! The manager never makes a system call itself. Each operation hands back
//! the call to make; the caller makes it and reports the outcome through
//! [`MaybePersistentForkserverParent::resume`], until the operation ends.

use vstd::prelude::*;
use nix::sys::signal::SigHandler;
use crate::error::Error;

verus! {

/// A signal disposition as the operating system hands it back.
#[verifier::external_type_specification]
#[verifier::external_body]
pub struct ExSigHandler(SigHandler);

/// Handle of a forked child.
#[derive(Clone, Copy, Debug, PartialEq, Eq, Structural)]
pub struct ChildHandle {
    /// The process id of the child.
    pub pid: i32,
}

/// The two sides of a fork.
#[derive(Clone, Copy, Debug, PartialEq, Eq, Structural)]
pub enum ForkResult {
    /// This is the parent; the child runs under the given handle.
    Parent(ChildHandle),
    /// This is the child.
    Child,
}

/// The signals the manager deals with.
#[derive(Clone, Copy, Debug, PartialEq, Eq, Structural)]
pub enum Signal {
    /// A child changed state (`SIGCHLD`).
    Chld,
    /// Termination was requested (`SIGTERM`).
    Term,
    /// Unconditional kill (`SIGKILL`).
    Kill,
    /// Continue a stopped process (`SIGCONT`).
    Cont,
}

/// What a signal is to be bound to.
#[derive(Clone, Copy, Debug, PartialEq, Eq)]
pub enum Handler {
    /// The system's default action.
    Default,
    /// A handler that does nothing but raise the shutdown flag.
    StopSoon,
    /// A disposition captured earlier.
    Saved(SigHandler),
}

/// A system call the caller is asked to make.
#[derive(Clone, Copy, Debug, PartialEq, Eq)]
pub enum Syscall {
    /// Bind `signal` to `handler`; report the previous disposition.
    SetSignal { signal: Signal, handler: Handler },
    /// Send `signal` to process `pid`.
    SendSignal { pid: i32, signal: Signal },
    /// Block until child `pid` changes state; report the raw wait status.
    Wait { pid: i32 },
    /// Fork; report which side this is.
    Fork,
    /// End this process with `code`. Nothing is reported back.
    Exit { code: i32 },
}

/// The outcome of a system call; failures carry `errno`.
#[derive(Clone, Copy, Debug, PartialEq, Eq)]
pub enum Reply {
    /// A disposition was changed; the previous one is returned.
    SignalSet(Result<SigHandler, i32>),
    /// A signal was sent.
    SignalSent(Result<(), i32>),
    /// A wait returned with this raw status.
    Waited(Result<i32, i32>),
    /// A fork returned.
    Forked(Result<ForkResult, i32>),
}

/// What an operation of the manager says when it pauses or ends.
#[derive(Clone, Copy, Debug, PartialEq, Eq)]
pub enum Progress {
    /// Make this call and report its outcome to `resume`.
    Call(Syscall),
    /// `pre_fuzzing` has ended.
    PreFuzzed(Result<(), Error>),
    /// `spawn_child` has ended.
    Spawned(Result<ForkResult, Error>),
    /// `handle_child_requests` has ended with the child's raw wait status.
    ChildStatus(Result<i32, Error>),
    /// The request does not fit the state; nothing changed.
    Failed(Error),
}

/// Where the manager stands between two calls.
#[derive(Clone, Copy, Debug, PartialEq, Eq, Structural)]
pub enum Phase {
    /// No operation is under way.
    Idle,
    /// `pre_fuzzing` asked for `SIGCHLD` to be reset.
    InstallingChld,
    /// `pre_fuzzing` asked for the `SIGTERM` handler.
    InstallingTerm,
    /// Shutdown: `SIGKILL` is on its way to the last child.
    Killing,
    /// A stopped child that the supervisor killed is being reaped.
    Reaping,
    /// `SIGCONT` is on its way to the stopped child.
    Resuming,
    /// A fork was asked for.
    Forking,
    /// In the child: the earlier `SIGCHLD` disposition is being put back.
    RestoringChld,
    /// In the child: the earlier `SIGTERM` disposition is being put back.
    RestoringTerm,
    /// `handle_child_requests` waits for the child.
    Waiting,
    /// `Exit` was handed out; the process is over.
    Exited,
}

/// The manager as a mathematical value.
pub ghost struct ParentModel {
    pub last_child_pid: Option<i32>,
    pub child_stopped: bool,
    pub old_sigchld_handler: Option<SigHandler>,
    pub old_sigterm_handler: Option<SigHandler>,
    pub phase: Phase,
}

/// Whether a raw wait status reports a stopped, not a terminated, child.
pub open spec fn status_is_stopped(status: i32) -> bool {
    (status & 0xff) == 0x7f
}

impl ParentModel {
    /// The manager before anything happened.
    pub open spec fn initial() -> ParentModel {
        ParentModel {
            last_child_pid: None,
            child_stopped: false,
            old_sigchld_handler: None,
            old_sigterm_handler: None,
            phase: Phase::Idle,
        }
    }

    /// What holds of the manager at all times: a stopped child is a
    /// recorded child, and so is one that is waited for or resumed.
    pub open spec fn wf(self) -> bool {
        &&& self.child_stopped ==> self.last_child_pid is Some
        &&& self.phase == Phase::Waiting ==> self.last_child_pid is Some
        &&& self.phase == Phase::Resuming ==> self.child_stopped
    }

    /// Start of `pre_fuzzing`.
    pub open spec fn pre_fuzzing(self) -> (ParentModel, Progress) {
        if self.phase != Phase::Idle {
            (self, Progress::Failed(Error::IllegalState))
        } else {
            (
                ParentModel { phase: Phase::InstallingChld, ..self },
                Progress::Call(Syscall::SetSignal { signal: Signal::Chld, handler: Handler::Default }),
            )
        }
    }

    /// Start of `spawn_child`.
    pub open spec fn spawn_child(self, stop_soon: bool, was_killed: bool) -> (
        ParentModel,
        Progress,
    ) {
        if self.phase != Phase::Idle {
            (self, Progress::Failed(Error::IllegalState))
        } else if stop_soon {
            match self.last_child_pid {
                Some(pid) => (
                    ParentModel {
                        last_child_pid: None,
                        child_stopped: false,
                        phase: Phase::Killing,
                        ..self
                    },
                    Progress::Call(Syscall::SendSignal { pid, signal: Signal::Kill }),
                ),
                None => (
                    ParentModel { child_stopped: false, phase: Phase::Exited, ..self },
                    Progress::Call(Syscall::Exit { code: 0 }),
                ),
            }
        } else if self.child_stopped && self.last_child_pid is Some {
            let pid = self.last_child_pid->0;
            if was_killed {
                (
                    ParentModel {
                        last_child_pid: None,
                        child_stopped: false,
                        phase: Phase::Reaping,
                        ..self
                    },
                    Progress::Call(Syscall::Wait { pid }),
                )
            } else {
                (
                    ParentModel { phase: Phase::Resuming, ..self },
                    Progress::Call(Syscall::SendSignal { pid, signal: Signal::Cont }),
                )
            }
        } else {
            (ParentModel { phase: Phase::Forking, ..self }, Progress::Call(Syscall::Fork))
        }
    }

    /// Start of `handle_child_requests`.
    pub open spec fn handle_child_requests(self) -> (ParentModel, Progress) {
        if self.phase != Phase::Idle {
            (self, Progress::Failed(Error::IllegalState))
        } else {
            match self.last_child_pid {
                Some(pid) => (
                    ParentModel { phase: Phase::Waiting, ..self },
                    Progress::Call(Syscall::Wait { pid }),
                ),
                None => (self, Progress::Failed(Error::IllegalState)),
            }
        }
    }

    /// In the child, after the `SIGCHLD` disposition is back in place.
    pub open spec fn restore_term(self) -> (ParentModel, Progress) {
        match self.old_sigterm_handler {
            Some(saved) => (
                ParentModel { old_sigterm_handler: None, phase: Phase::RestoringTerm, ..self },
                Progress::Call(
                    Syscall::SetSignal { signal: Signal::Term, handler: Handler::Saved(saved) },
                ),
            ),
            None => (
                ParentModel { phase: Phase::Idle, ..self },
                Progress::Spawned(Err(Error::IllegalState)),
            ),
        }
    }

    /// In the child, right after the fork.
    pub open spec fn restore_chld(self) -> (ParentModel, Progress) {
        match self.old_sigchld_handler {
            Some(saved) => (
                ParentModel { old_sigchld_handler: None, phase: Phase::RestoringChld, ..self },
                Progress::Call(
                    Syscall::SetSignal { signal: Signal::Chld, handler: Handler::Saved(saved) },
                ),
            ),
            None => (
                ParentModel { phase: Phase::Idle, ..self },
                Progress::Spawned(Err(Error::IllegalState)),
            ),
        }
    }

    /// The operation under way ends by handing `progress` to the caller.
    pub open spec fn finish(self, progress: Progress) -> (ParentModel, Progress) {
        (ParentModel { phase: Phase::Idle, ..self }, progress)
    }

    /// The outcome of the call that was asked for last.
    pub open spec fn resume(self, reply: Reply) -> (ParentModel, Progress) {
        match (self.phase, reply) {
            (Phase::InstallingChld, Reply::SignalSet(Ok(previous))) => (
                ParentModel {
                    old_sigchld_handler: Some(previous),
                    phase: Phase::InstallingTerm,
                    ..self
                },
                Progress::Call(
                    Syscall::SetSignal { signal: Signal::Term, handler: Handler::StopSoon },
                ),
            ),
            (Phase::InstallingChld, Reply::SignalSet(Err(errno))) => self.finish(
                Progress::PreFuzzed(Err(Error::System(errno))),
            ),
            (Phase::InstallingTerm, Reply::SignalSet(Ok(previous))) => ParentModel {
                old_sigterm_handler: Some(previous),
                ..self
            }.finish(Progress::PreFuzzed(Ok(()))),
            (Phase::InstallingTerm, Reply::SignalSet(Err(errno))) => self.finish(
                Progress::PreFuzzed(Err(Error::System(errno))),
            ),
            (Phase::Killing, Reply::SignalSent(Ok(_))) => (
                ParentModel { phase: Phase::Exited, ..self },
                Progress::Call(Syscall::Exit { code: 0 }),
            ),
            (Phase::Killing, Reply::SignalSent(Err(errno))) => self.finish(
                Progress::Spawned(Err(Error::System(errno))),
            ),
            (Phase::Reaping, Reply::Waited(Ok(_))) => (
                ParentModel { phase: Phase::Forking, ..self },
                Progress::Call(Syscall::Fork),
            ),
            (Phase::Reaping, Reply::Waited(Err(errno))) => self.finish(
                Progress::Spawned(Err(Error::System(errno))),
            ),
            (Phase::Resuming, Reply::SignalSent(Ok(_))) => match self.last_child_pid {
                Some(pid) => ParentModel { child_stopped: false, ..self }.finish(
                    Progress::Spawned(Ok(ForkResult::Parent(ChildHandle { pid }))),
                ),
                None => self.finish(Progress::Spawned(Err(Error::IllegalState))),
            },
            (Phase::Resuming, Reply::SignalSent(Err(errno))) => self.finish(
                Progress::Spawned(Err(Error::System(errno))),
            ),
            (Phase::Forking, Reply::Forked(Ok(ForkResult::Parent(child)))) => ParentModel {
                last_child_pid: Some(child.pid),
                ..self
            }.finish(Progress::Spawned(Ok(ForkResult::Parent(child)))),
            (Phase::Forking, Reply::Forked(Ok(ForkResult::Child))) => self.restore_chld(),
            (Phase::Forking, Reply::Forked(Err(errno))) => self.finish(
                Progress::Spawned(Err(Error::System(errno))),
            ),
            (Phase::RestoringChld, Reply::SignalSet(Ok(_))) => self.restore_term(),
            (Phase::RestoringChld, Reply::SignalSet(Err(errno))) => self.finish(
                Progress::Spawned(Err(Error::System(errno))),
            ),
            (Phase::RestoringTerm, Reply::SignalSet(Ok(_))) => self.finish(
                Progress::Spawned(Ok(ForkResult::Child)),
            ),
            (Phase::RestoringTerm, Reply::SignalSet(Err(errno))) => self.finish(
                Progress::Spawned(Err(Error::System(errno))),
            ),
            (Phase::Waiting, Reply::Waited(Ok(status))) => if status_is_stopped(status) {
                ParentModel { child_stopped: true, ..self }.finish(
                    Progress::ChildStatus(Ok(status)),
                )
            } else {
                ParentModel { last_child_pid: None, child_stopped: false, ..self }.finish(
                    Progress::ChildStatus(Ok(status)),
                )
            },
            (Phase::Waiting, Reply::Waited(Err(errno))) => self.finish(
                Progress::ChildStatus(Err(Error::System(errno))),
            ),
            _ => (self, Progress::Failed(Error::IllegalState)),
        }
    }
}


/// Parent to handle all logic with forkserver children.
///
/// An implementation decides which system calls look after the children.
/// Each of the three operations hands back the first call to make, or its
/// result where no call is needed; `resume` takes the outcome of a call and
/// hands back the next one, until the operation has ended.
pub trait ForkserverParent {
    /// Begins the routine that precedes the fuzzing loop. Usually the
    /// signal handlers are set up here.
    fn pre_fuzzing(&mut self) -> Progress;

    /// Begins obtaining a child once the forkserver is ready. `stop_soon`
    /// is the shutdown flag as read now; `was_killed` tells that the
    /// supervisor killed the previous child.
    fn spawn_child(&mut self, stop_soon: bool, was_killed: bool) -> Progress;

    /// Begins interacting with the spawned child until it has done its
    /// part. The operation ends with the child's raw wait status.
    fn handle_child_requests(&mut self) -> Progress;

    /// Takes the outcome of the call handed out last.
    fn resume(&mut self, reply: Reply) -> Progress;
}

/// `libc::WIFSTOPPED`: true exactly when the low byte of the wait status is
/// `0x7f`, the mark of a child that stopped instead of ending.
#[verifier::external_body]
fn wifstopped(status: i32) -> (stopped: bool)
    ensures
        stopped == status_is_stopped(status),
{
    libc::WIFSTOPPED(status)
}

/// Forkserver parent that handles both one-shot and persistent children.
///
/// In persistent mode a child stops itself after each run instead of
/// exiting, and is continued for the next run.
#[derive(Debug)]
pub struct MaybePersistentForkserverParent {
    last_child_pid: Option<i32>,
    child_stopped: bool,
    old_sigchld_handler: Option<SigHandler>,
    old_sigterm_handler: Option<SigHandler>,
    phase: Phase,
}

impl View for MaybePersistentForkserverParent {
    type V = ParentModel;

    closed spec fn view(&self) -> ParentModel {
        ParentModel {
            last_child_pid: self.last_child_pid,
            child_stopped: self.child_stopped,
            old_sigchld_handler: self.old_sigchld_handler,
            old_sigterm_handler: self.old_sigterm_handler,
            phase: self.phase,
        }
    }
}

impl MaybePersistentForkserverParent {
    #[verifier::type_invariant]
    spec fn well_formed(self) -> bool {
        self@.wf()
    }

    /// Create a new forkserver parent.
    #[must_use]
    pub fn new() -> (parent: Self)
        ensures
            parent@ == ParentModel::initial(),
    {
        MaybePersistentForkserverParent {
            last_child_pid: None,
            child_stopped: false,
            old_sigchld_handler: None,
            old_sigterm_handler: None,
            phase: Phase::Idle,
        }
    }

    /// The child spawned last, unless it has ended since.
    pub fn last_child_pid(&self) -> (pid: Option<i32>)
        ensures
            pid == self@.last_child_pid,
            self@.wf(),
    {
        proof {
            use_type_invariant(self);
        }
        self.last_child_pid
    }

    /// Whether the recorded child is stopped, waiting to be continued.
    pub fn child_stopped(&self) -> (stopped: bool)
        ensures
            stopped == self@.child_stopped,
            stopped ==> self@.last_child_pid is Some,
    {
        proof {
            use_type_invariant(self);
        }
        self.child_stopped
    }

    /// Where the manager stands.
    pub fn phase(&self) -> (phase: Phase)
        ensures
            phase == self@.phase,
    {
        self.phase
    }

    /// Begins the routine that precedes the fuzzing loop: `SIGCHLD` goes
    /// back to its default so that waiting works, `SIGTERM` is bound to the
    /// handler that requests shutdown, and both earlier dispositions are
    /// kept for the children.
    pub fn pre_fuzzing(&mut self) -> (progress: Progress)
        ensures
            (final(self)@, progress) == old(self)@.pre_fuzzing(),
            final(self)@.wf(),
    {
        proof {
            use_type_invariant(&*self);
        }
        if self.phase != Phase::Idle {
            return Progress::Failed(Error::IllegalState);
        }
        self.phase = Phase::InstallingChld;
        Progress::Call(Syscall::SetSignal { signal: Signal::Chld, handler: Handler::Default })
    }

    /// Begins obtaining a child for the next run.
    ///
    /// `stop_soon` is the shutdown flag as read at this moment; `was_killed`
    /// tells that the supervisor killed the previous child. With the flag
    /// set the last child is killed and the process ends. A stopped child
    /// is continued, unless the supervisor killed it: then it is reaped and
    /// a new one forked. With no stopped child a new one is forked.
    pub fn spawn_child(&mut self, stop_soon: bool, was_killed: bool) -> (progress: Progress)
        ensures
            (final(self)@, progress) == old(self)@.spawn_child(stop_soon, was_killed),
            final(self)@.wf(),
    {
        proof {
            use_type_invariant(&*self);
        }
        if self.phase != Phase::Idle {
            return Progress::Failed(Error::IllegalState);
        }
        if stop_soon {
            self.child_stopped = false;
            let last = self.last_child_pid;
            self.last_child_pid = None;
            return match last {
                Some(pid) => {
                    self.phase = Phase::Killing;
                    Progress::Call(Syscall::SendSignal { pid, signal: Signal::Kill })
                },
                None => {
                    self.phase = Phase::Exited;
                    Progress::Call(Syscall::Exit { code: 0 })
                },
            };
        }
        if self.child_stopped {
            match self.last_child_pid {
                Some(pid) => {
                    if was_killed {
                        self.child_stopped = false;
                        self.last_child_pid = None;
                        self.phase = Phase::Reaping;
                        return Progress::Call(Syscall::Wait { pid });
                    }
                    self.phase = Phase::Resuming;
                    return Progress::Call(Syscall::SendSignal { pid, signal: Signal::Cont });
                },
                None => {},
            }
        }
        self.phase = Phase::Forking;
        Progress::Call(Syscall::Fork)
    }

    /// Begins waiting until the child has done its part.
    ///
    /// The operation ends with the raw wait status. A child that stopped
    /// stays recorded; one that ended is forgotten.
    pub fn handle_child_requests(&mut self) -> (progress: Progress)
        ensures
            (final(self)@, progress) == old(self)@.handle_child_requests(),
            final(self)@.wf(),
    {
        proof {
            use_type_invariant(&*self);
        }
        if self.phase != Phase::Idle {
            return Progress::Failed(Error::IllegalState);
        }
        match self.last_child_pid {
            Some(pid) => {
                self.phase = Phase::Waiting;
                Progress::Call(Syscall::Wait { pid })
            },
            None => Progress::Failed(Error::IllegalState),
        }
    }

    /// Takes the outcome of the call handed out last and says how the
    /// operation goes on.
    pub fn resume(&mut self, reply: Reply) -> (progress: Progress)
        ensures
            (final(self)@, progress) == old(self)@.resume(reply),
            final(self)@.wf(),
    {
        proof {
            use_type_invariant(&*self);
        }
        match (self.phase, reply) {
            (Phase::InstallingChld, Reply::SignalSet(Ok(previous))) => {
                self.old_sigchld_handler = Some(previous);
                self.phase = Phase::InstallingTerm;
                Progress::Call(
                    Syscall::SetSignal { signal: Signal::Term, handler: Handler::StopSoon },
                )
            },
            (Phase::InstallingChld, Reply::SignalSet(Err(errno))) => {
                self.phase = Phase::Idle;
                Progress::PreFuzzed(Err(Error::System(errno)))
            },
            (Phase::InstallingTerm, Reply::SignalSet(Ok(previous))) => {
                self.old_sigterm_handler = Some(previous);
                self.phase = Phase::Idle;
                Progress::PreFuzzed(Ok(()))
            },
            (Phase::InstallingTerm, Reply::SignalSet(Err(errno))) => {
                self.phase = Phase::Idle;
                Progress::PreFuzzed(Err(Error::System(errno)))
            },
            (Phase::Killing, Reply::SignalSent(Ok(_))) => {
                self.phase = Phase::Exited;
                Progress::Call(Syscall::Exit { code: 0 })
            },
            (Phase::Killing, Reply::SignalSent(Err(errno))) => {
                self.phase = Phase::Idle;
                Progress::Spawned(Err(Error::System(errno)))
            },
            (Phase::Reaping, Reply::Waited(Ok(_))) => {
                self.phase = Phase::Forking;
                Progress::Call(Syscall::Fork)
            },
            (Phase::Reaping, Reply::Waited(Err(errno))) => {
                self.phase = Phase::Idle;
                Progress::Spawned(Err(Error::System(errno)))
            },
            (Phase::Resuming, Reply::SignalSent(Ok(_))) => {
                self.phase = Phase::Idle;
                match self.last_child_pid {
                    Some(pid) => {
                        self.child_stopped = false;
                        Progress::Spawned(Ok(ForkResult::Parent(ChildHandle { pid })))
                    },
                    None => Progress::Spawned(Err(Error::IllegalState)),
                }
            },
            (Phase::Resuming, Reply::SignalSent(Err(errno))) => {
                self.phase = Phase::Idle;
                Progress::Spawned(Err(Error::System(errno)))
            },
            (Phase::Forking, Reply::Forked(Ok(ForkResult::Parent(child)))) => {
                self.last_child_pid = Some(child.pid);
                self.phase = Phase::Idle;
                Progress::Spawned(Ok(ForkResult::Parent(child)))
            },
            (Phase::Forking, Reply::Forked(Ok(ForkResult::Child))) => {
                let kept = self.old_sigchld_handler;
                self.old_sigchld_handler = None;
                match kept {
                    Some(saved) => {
                        self.phase = Phase::RestoringChld;
                        Progress::Call(
                            Syscall::SetSignal {
                                signal: Signal::Chld,
                                handler: Handler::Saved(saved),
                            },
                        )
                    },
                    None => {
                        self.phase = Phase::Idle;
                        Progress::Spawned(Err(Error::IllegalState))
                    },
                }
            },
            (Phase::Forking, Reply::Forked(Err(errno))) => {
                self.phase = Phase::Idle;
                Progress::Spawned(Err(Error::System(errno)))
            },
            (Phase::RestoringChld, Reply::SignalSet(Ok(_))) => {
                let kept = self.old_sigterm_handler;
                self.old_sigterm_handler = None;
                match kept {
                    Some(saved) => {
                        self.phase = Phase::RestoringTerm;
                        Progress::Call(
                            Syscall::SetSignal {
                                signal: Signal::Term,
                                handler: Handler::Saved(saved),
                            },
                        )
                    },
                    None => {
                        self.phase = Phase::Idle;
                        Progress::Spawned(Err(Error::IllegalState))
                    },
                }
            },
            (Phase::RestoringChld, Reply::SignalSet(Err(errno))) => {
                self.phase = Phase::Idle;
                Progress::Spawned(Err(Error::System(errno)))
            },
            (Phase::RestoringTerm, Reply::SignalSet(Ok(_))) => {
                self.phase = Phase::Idle;
                Progress::Spawned(Ok(ForkResult::Child))
            },
            (Phase::RestoringTerm, Reply::SignalSet(Err(errno))) => {
                self.phase = Phase::Idle;
                Progress::Spawned(Err(Error::System(errno)))
            },
            (Phase::Waiting, Reply::Waited(Ok(status))) => {
                self.phase = Phase::Idle;
                if wifstopped(status) {
                    self.child_stopped = true;
                } else {
                    self.child_stopped = false;
                    self.last_child_pid = None;
                }
                Progress::ChildStatus(Ok(status))
            },
            (Phase::Waiting, Reply::Waited(Err(errno))) => {
                self.phase = Phase::Idle;
                Progress::ChildStatus(Err(Error::System(errno)))
            },
            _ => Progress::Failed(Error::IllegalState),
        }
    }
}

impl ForkserverParent for MaybePersistentForkserverParent {
    fn pre_fuzzing(&mut self) -> (progress: Progress)
        ensures
            (final(self)@, progress) == old(self)@.pre_fuzzing(),
    {
        MaybePersistentForkserverParent::pre_fuzzing(self)
    }

    fn spawn_child(&mut self, stop_soon: bool, was_killed: bool) -> (progress: Progress)
        ensures
            (final(self)@, progress) == old(self)@.spawn_child(stop_soon, was_killed),
    {
        MaybePersistentForkserverParent::spawn_child(self, stop_soon, was_killed)
    }

    fn handle_child_requests(&mut self) -> (progress: Progress)
        ensures
            (final(self)@, progress) == old(self)@.handle_child_requests(),
    {
        MaybePersistentForkserverParent::handle_child_requests(self)
    }

    fn resume(&mut self, reply: Reply) -> (progress: Progress)
        ensures
            (final(self)@, progress) == old(self)@.resume(reply),
    {
        MaybePersistentForkserverParent::resume(self, reply)
    }
}

impl Default for MaybePersistentForkserverParent {
    fn default() -> (parent: Self)
        ensures
            parent@ == ParentModel::initial(),
    {
        MaybePersistentForkserverParent::new()
    }
}

/// A stopped child is a recorded child before anything happened, and every
/// transition keeps it so.
pub proof fn lemma_stopped_child_is_recorded(
    m: ParentModel,
    stop_soon: bool,
    was_killed: bool,
    reply: Reply,
)
    requires
        m.wf(),
    ensures
        ParentModel::initial().wf(),
        m.child_stopped ==> m.last_child_pid is Some,
        m.pre_fuzzing().0.wf(),
        m.spawn_child(stop_soon, was_killed).0.wf(),
        m.handle_child_requests().0.wf(),
        m.resume(reply).0.wf(),
{
}

/// Persistent-mode reuse: a stopped child that the supervisor did not kill
/// is sent `SIGCONT` and handed back under its own pid. No fork is asked
/// for on the way.
pub proof fn lemma_stopped_child_is_continued(m: ParentModel)
    requires
        m.wf(),
        m.phase == Phase::Idle,
        m.child_stopped,
    ensures
        ({
            let pid = m.last_child_pid->0;
            let (sent, first) = m.spawn_child(false, false);
            let (done, second) = sent.resume(Reply::SignalSent(Ok(())));
            &&& first == Progress::Call(Syscall::SendSignal { pid, signal: Signal::Cont })
            &&& second == Progress::Spawned(Ok(ForkResult::Parent(ChildHandle { pid })))
            &&& done.phase == Phase::Idle
            &&& !done.child_stopped
            &&& done.last_child_pid == Some(pid)
        }),
{
}

/// Stale-child reap: a stopped child that the supervisor killed is waited
/// for first. Only when that wait has succeeded is a fork asked for; when
/// it fails the operation ends with the error and no fork.
pub proof fn lemma_stale_child_is_reaped_before_fork(m: ParentModel, status: i32, errno: i32)
    requires
        m.wf(),
        m.phase == Phase::Idle,
        m.child_stopped,
    ensures
        ({
            let pid = m.last_child_pid->0;
            let (reaping, first) = m.spawn_child(false, true);
            let (forking, second) = reaping.resume(Reply::Waited(Ok(status)));
            let (failed, third) = reaping.resume(Reply::Waited(Err(errno)));
            &&& first == Progress::Call(Syscall::Wait { pid })
            &&& !reaping.child_stopped
            &&& reaping.last_child_pid is None
            &&& second == Progress::Call(Syscall::Fork)
            &&& forking.phase == Phase::Forking
            &&& third == Progress::Spawned(Err(Error::System(errno)))
            &&& failed.phase == Phase::Idle
        }),
{
}

/// Shutdown: with the flag set, `spawn_child` kills the recorded child, if
/// there is one, and then asks for exit with status 0. After that the
/// manager answers every request with a refusal and asks for nothing.
pub proof fn lemma_shutdown_kills_and_exits(
    m: ParentModel,
    was_killed: bool,
    later_stop: bool,
    later_killed: bool,
    later_reply: Reply,
)
    requires
        m.wf(),
        m.phase == Phase::Idle,
    ensures
        ({
            let (next, first) = m.spawn_child(true, was_killed);
            let over = match m.last_child_pid {
                Some(pid) => next.resume(Reply::SignalSent(Ok(()))).0,
                None => next,
            };
            &&& m.last_child_pid matches Some(pid) ==> {
                &&& first == Progress::Call(Syscall::SendSignal { pid, signal: Signal::Kill })
                &&& next.resume(Reply::SignalSent(Ok(()))).1 == Progress::Call(
                    Syscall::Exit { code: 0 },
                )
            }
            &&& m.last_child_pid is None ==> first == Progress::Call(Syscall::Exit { code: 0 })
            &&& over.phase == Phase::Exited
            &&& over.last_child_pid is None
            &&& over.pre_fuzzing() == (over, Progress::Failed(Error::IllegalState))
            &&& over.spawn_child(later_stop, later_killed) == (
                over,
                Progress::Failed(Error::IllegalState),
            )
            &&& over.handle_child_requests() == (over, Progress::Failed(Error::IllegalState))
            &&& over.resume(later_reply) == (over, Progress::Failed(Error::IllegalState))
        }),
{
}

/// Only the child branch puts earlier dispositions back, and it does so
/// once: a saved disposition is asked to be restored only after a fork
/// that made this process the child, each of the two is forgotten as it is
/// handed out, and no operation asks for one at its start.
pub proof fn lemma_only_the_child_restores(
    m: ParentModel,
    stop_soon: bool,
    was_killed: bool,
    reply: Reply,
)
    ensures
        !(m.pre_fuzzing().1 matches Progress::Call(
            Syscall::SetSignal { handler: Handler::Saved(_), .. },
        )),
        !(m.spawn_child(stop_soon, was_killed).1 matches Progress::Call(Syscall::SetSignal { .. })),
        !(m.handle_child_requests().1 matches Progress::Call(Syscall::SetSignal { .. })),
        m.resume(reply).1 matches Progress::Call(
            Syscall::SetSignal { signal, handler: Handler::Saved(saved) },
        ) ==> {
            ||| {
                &&& m.phase == Phase::Forking
                &&& reply == Reply::Forked(Ok(ForkResult::Child))
                &&& signal == Signal::Chld
                &&& m.old_sigchld_handler == Some(saved)
                &&& m.resume(reply).0.old_sigchld_handler is None
            }
            ||| {
                &&& m.phase == Phase::RestoringChld
                &&& signal == Signal::Term
                &&& m.old_sigterm_handler == Some(saved)
                &&& m.resume(reply).0.old_sigterm_handler is None
            }
        },
{
}

} // verus!
