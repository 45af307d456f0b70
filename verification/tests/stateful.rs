use core::time::Duration;
use forksrv::actual_crash_feedback::ActualCrashFeedback;
use forksrv::error::Error;
use forksrv::lifecycle::{ChildHandle, ForkResult, Syscall};
use forksrv::stateful::{
    classify, ExitKind, RunPhase, RunProgress, RunReply, StatefulGenericInProcessForkExecutor,
    StatefulInProcessForkExecutor,
};

fn count_bytes(seen: &mut Vec<usize>, input: &Vec<u8>) -> ExitKind {
    seen.push(input.len());
    ExitKind::Normal
}

#[test]
fn wait_status_is_classified() {
    assert_eq!(classify(0, false), ExitKind::Normal);
    assert_eq!(classify(0x0100, false), ExitKind::Normal);
    assert_eq!(classify(9, false), ExitKind::Crashed);
    assert_eq!(classify(11, false), ExitKind::Crashed);
    assert_eq!(classify(0x8b, false), ExitKind::Crashed);
    assert_eq!(classify(0x7e, false), ExitKind::Crashed);
    assert_eq!(classify(0x137f, false), ExitKind::Normal);
    assert_eq!(classify(0, true), ExitKind::TimedOut);
    assert_eq!(classify(9, true), ExitKind::TimedOut);
}

#[test]
fn classification_agrees_with_the_c_library() {
    for status in [0, 1, 2, 6, 9, 11, 15, 0x7e, 0x7f, 0x80, 0x8b, 0xff, 0x100, 0x137f, 0xffff, -1] {
        let expected = if libc::WIFSIGNALED(status) { ExitKind::Crashed } else { ExitKind::Normal };
        assert_eq!(classify(status, false), expected, "status {:#x}", status);
    }
}

#[test]
fn executor_keeps_what_it_was_built_from() {
    let mut harness: fn(&mut Vec<usize>, &Vec<u8>) -> ExitKind = count_bytes;
    let executor = StatefulGenericInProcessForkExecutor::with_hooks(
        "hooks",
        &mut harness,
        vec![1usize],
        7u8,
        Duration::from_secs(5),
        "provider",
    )
    .unwrap();
    assert_eq!(executor.exposed_executor_state, vec![1usize]);
    assert_eq!(executor.inner.hooks, "hooks");
    assert_eq!(executor.inner.observers, 7u8);
    assert_eq!(executor.inner.shmem_provider, "provider");
    assert_eq!(executor.inner.timeout, Duration::from_secs(5));
    assert_eq!(executor.phase(), RunPhase::Idle);
    let harness_ref: &fn(&mut Vec<usize>, &Vec<u8>) -> ExitKind = executor.harness();
    let mut seen = Vec::new();
    assert_eq!(harness_ref(&mut seen, &vec![0u8; 3]), ExitKind::Normal);
    assert_eq!(seen, vec![3]);
}

#[test]
fn executor_without_hooks_has_unit_hooks() {
    let mut harness = count_bytes;
    let executor = StatefulInProcessForkExecutor::new(
        &mut harness,
        Vec::<usize>::new(),
        (),
        Duration::from_millis(10),
        (),
    )
    .unwrap();
    assert_eq!(executor.inner.hooks, ());
    assert_eq!(executor.inner.timeout, Duration::from_millis(10));
}

#[test]
fn harness_can_be_replaced_through_harness_mut() {
    fn other(seen: &mut Vec<usize>, _input: &Vec<u8>) -> ExitKind {
        seen.push(99);
        ExitKind::Crashed
    }
    let mut harness: fn(&mut Vec<usize>, &Vec<u8>) -> ExitKind = count_bytes;
    let mut executor = StatefulInProcessForkExecutor::new(
        &mut harness,
        Vec::<usize>::new(),
        (),
        Duration::from_secs(1),
        (),
    )
    .unwrap();
    *executor.harness_mut() = other;
    let mut seen = Vec::new();
    assert_eq!((executor.harness())(&mut seen, &Vec::new()), ExitKind::Crashed);
    assert_eq!(seen, vec![99]);
}

#[test]
fn run_in_the_parent_counts_forks_waits_and_classifies() {
    let mut harness = count_bytes;
    let mut executor = StatefulInProcessForkExecutor::new(
        &mut harness,
        Vec::<usize>::new(),
        (),
        Duration::from_secs(1),
        (),
    )
    .unwrap();
    let input = vec![1u8, 2, 3];
    let mut executions = 41u64;
    assert_eq!(executor.run_target(&mut executions), RunProgress::Call(Syscall::Fork));
    assert_eq!(executions, 42);
    assert_eq!(executor.phase(), RunPhase::Forking);
    assert_eq!(
        executor.resume(
            RunReply::Forked(Ok(ForkResult::Parent(ChildHandle { pid: 321 }))),
            &input
        ),
        RunProgress::Call(Syscall::Wait { pid: 321 })
    );
    assert_eq!(
        executor.resume(RunReply::Waited { outcome: Ok(11), timed_out: false }, &input),
        RunProgress::Finished(Ok(ExitKind::Crashed))
    );
    assert_eq!(executor.phase(), RunPhase::Idle);
    // The harness runs in the child only.
    assert!(executor.exposed_executor_state.is_empty());

    assert_eq!(executor.run_target(&mut executions), RunProgress::Call(Syscall::Fork));
    assert_eq!(executions, 43);
    executor.resume(RunReply::Forked(Ok(ForkResult::Parent(ChildHandle { pid: 322 }))), &input);
    assert_eq!(
        executor.resume(RunReply::Waited { outcome: Ok(0), timed_out: false }, &input),
        RunProgress::Finished(Ok(ExitKind::Normal))
    );
    assert_eq!(executor.run_target(&mut executions), RunProgress::Call(Syscall::Fork));
    executor.resume(RunReply::Forked(Ok(ForkResult::Parent(ChildHandle { pid: 323 }))), &input);
    assert_eq!(
        executor.resume(RunReply::Waited { outcome: Ok(9), timed_out: true }, &input),
        RunProgress::Finished(Ok(ExitKind::TimedOut))
    );
    assert_eq!(executions, 44);
}

#[test]
fn run_in_the_child_calls_the_harness_and_exits() {
    let mut harness = count_bytes;
    let mut executor = StatefulInProcessForkExecutor::new(
        &mut harness,
        vec![7usize],
        (),
        Duration::from_secs(1),
        (),
    )
    .unwrap();
    let input = vec![1u8, 2, 3, 4, 5];
    let mut executions = 0u64;
    executor.run_target(&mut executions);
    assert_eq!(
        executor.resume(RunReply::Forked(Ok(ForkResult::Child)), &input),
        RunProgress::Call(Syscall::Exit { code: 0 })
    );
    assert_eq!(executor.exposed_executor_state, vec![7, 5]);
    assert_eq!(executor.phase(), RunPhase::Exiting);
    assert_eq!(executions, 1);
    assert_eq!(executor.run_target(&mut executions), RunProgress::Failed(Error::IllegalState));
    assert_eq!(executions, 1);
}

#[test]
fn failed_fork_and_wait_are_system_errors_and_still_counted() {
    let mut harness = count_bytes;
    let mut executor = StatefulInProcessForkExecutor::new(
        &mut harness,
        Vec::<usize>::new(),
        (),
        Duration::from_secs(1),
        (),
    )
    .unwrap();
    let input = Vec::new();
    let mut executions = 0u64;
    executor.run_target(&mut executions);
    assert_eq!(
        executor.resume(RunReply::Forked(Err(12)), &input),
        RunProgress::Finished(Err(Error::System(12)))
    );
    assert_eq!(executions, 1);
    executor.run_target(&mut executions);
    executor.resume(RunReply::Forked(Ok(ForkResult::Parent(ChildHandle { pid: 1 }))), &input);
    assert_eq!(
        executor.resume(RunReply::Waited { outcome: Err(10), timed_out: false }, &input),
        RunProgress::Finished(Err(Error::System(10)))
    );
    assert_eq!(executions, 2);
    assert_eq!(executor.phase(), RunPhase::Idle);
}

#[test]
fn replies_out_of_sequence_are_refused() {
    let mut harness = count_bytes;
    let mut executor = StatefulInProcessForkExecutor::new(
        &mut harness,
        Vec::<usize>::new(),
        (),
        Duration::from_secs(1),
        (),
    )
    .unwrap();
    let input = Vec::new();
    assert_eq!(
        executor.resume(RunReply::Forked(Ok(ForkResult::Child)), &input),
        RunProgress::Failed(Error::IllegalState)
    );
    assert!(executor.exposed_executor_state.is_empty());
    let mut executions = 0u64;
    executor.run_target(&mut executions);
    assert_eq!(
        executor.resume(RunReply::Waited { outcome: Ok(0), timed_out: false }, &input),
        RunProgress::Failed(Error::IllegalState)
    );
    assert_eq!(executor.phase(), RunPhase::Forking);
}

#[test]
fn crash_feedback_looks_at_the_exit_kind_only() {
    let mut feedback = ActualCrashFeedback::new();
    assert_eq!(feedback.is_interesting(&ExitKind::Crashed), Ok(true));
    assert_eq!(feedback.is_interesting(&ExitKind::Normal), Ok(false));
    assert_eq!(feedback.is_interesting(&ExitKind::TimedOut), Ok(false));
    assert_eq!(feedback.name(), "ActualCrashFeedback");
    assert_eq!(ActualCrashFeedback::default(), ActualCrashFeedback::new());
}
