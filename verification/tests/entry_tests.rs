//! The boot barrier driven through concrete interleavings.

use svruntime::entry::{BootAction, BootEvent, BootSystem, HartPhase};
use svruntime::sbi::SyscallResult;

fn probe_ok() -> BootEvent {
    // success reply carrying the expected implementation id
    BootEvent::ProbeReply(SyscallResult::new(0, 5, 0))
}

fn probe_foreign() -> BootEvent {
    // success reply, but some other host's implementation id
    BootEvent::ProbeReply(SyscallResult::new(0, 4, 0))
}

#[test]
fn three_harts_boot_with_one_setup_and_one_termination() {
    let mut sys = BootSystem::new(3, 0x8020_0000, 0x8830_0000);

    // all three harts announce themselves before anyone proceeds
    for h in 0..3 {
        let a = sys.step(h, BootEvent::Advance);
        assert!(matches!(a, BootAction::IssueProbe(_)));
    }
    assert_eq!(sys.counter, 3);

    // all three learn they run under the expected host
    for h in 0..3 {
        assert_eq!(sys.step(h, probe_ok()), BootAction::Proceed);
    }

    // the waiters spin: setup is not published yet
    assert_eq!(sys.step(1, BootEvent::Advance), BootAction::KeepWaiting);
    assert_eq!(sys.step(2, BootEvent::Advance), BootAction::KeepWaiting);
    assert_eq!(sys.init_calls, 0);

    // hart 0 runs the one-time heap bootstrap
    match sys.step(0, BootEvent::Advance) {
        BootAction::InitHeap(region) => {
            assert_eq!(region.start, 0x8020_0000);
            assert_eq!(region.end, 0x8830_0000);
        },
        other => panic!("expected the heap bootstrap, got {:?}", other),
    }
    assert_eq!(sys.init_calls, 1);
    assert!(sys.heap.is_some());

    // hart 0 publishes readiness and enters the guest
    assert_eq!(sys.step(0, BootEvent::Advance), BootAction::RunMain);
    assert!(sys.ready);

    // hart 1 takes the flag; hart 2 spins while it is down
    assert_eq!(sys.step(1, BootEvent::Advance), BootAction::Proceed);
    assert!(!sys.ready);
    assert_eq!(sys.step(2, BootEvent::Advance), BootAction::KeepWaiting);

    // hart 1 restores the flag and runs; hart 2 drains it next
    assert_eq!(sys.step(1, BootEvent::Advance), BootAction::RunMain);
    assert_eq!(sys.step(2, BootEvent::Advance), BootAction::Proceed);
    assert_eq!(sys.step(2, BootEvent::Advance), BootAction::RunMain);

    // setup ran exactly once for the whole boot
    assert_eq!(sys.init_calls, 1);

    // the guests return in an arbitrary order
    assert_eq!(sys.step(1, BootEvent::MainReturned), BootAction::Proceed);
    assert_eq!(sys.step(1, BootEvent::Advance), BootAction::Proceed);
    assert_eq!(sys.harts[1], HartPhase::Exited);
    assert_eq!(sys.counter, 2);

    assert_eq!(sys.step(0, BootEvent::MainReturned), BootAction::Proceed);
    assert_eq!(sys.step(0, BootEvent::Advance), BootAction::Proceed);
    assert_eq!(sys.harts[0], HartPhase::Exited);
    assert_eq!(sys.counter, 1);

    // the last hart out sees the one-to-zero transition
    assert_eq!(sys.step(2, BootEvent::MainReturned), BootAction::Proceed);
    assert_eq!(sys.step(2, BootEvent::Advance), BootAction::Proceed);
    assert_eq!(sys.harts[2], HartPhase::Terminating);
    assert_eq!(sys.counter, 0);
    assert_eq!(sys.terminate_calls, 0);

    // and it alone issues the clean-exit reset
    match sys.step(2, BootEvent::Advance) {
        BootAction::IssueTerminate(call) => {
            assert_eq!(call.extension, 0x53525354);
            assert_eq!(call.function, 0);
            assert_eq!(call.param0, 0);
            assert_eq!(call.param1, 0);
        },
        other => panic!("expected the termination request, got {:?}", other),
    }
    assert_eq!(sys.terminate_calls, 1);
    assert!(sys.terminated);
}

#[test]
fn single_hart_boots_and_terminates() {
    let mut sys = BootSystem::new(1, 0x1000, 0x2000);
    assert!(matches!(sys.step(0, BootEvent::Advance), BootAction::IssueProbe(_)));
    assert_eq!(sys.step(0, probe_ok()), BootAction::Proceed);
    assert!(matches!(sys.step(0, BootEvent::Advance), BootAction::InitHeap(_)));
    assert_eq!(sys.step(0, BootEvent::Advance), BootAction::RunMain);
    assert_eq!(sys.step(0, BootEvent::MainReturned), BootAction::Proceed);
    assert_eq!(sys.step(0, BootEvent::Advance), BootAction::Proceed);
    assert!(matches!(sys.step(0, BootEvent::Advance), BootAction::IssueTerminate(_)));
    assert_eq!(sys.init_calls, 1);
    assert_eq!(sys.terminate_calls, 1);
}

#[test]
fn foreign_host_skips_guest_but_still_terminates() {
    let mut sys = BootSystem::new(2, 0x1000, 0x2000);
    for h in 0..2 {
        assert!(matches!(sys.step(h, BootEvent::Advance), BootAction::IssueProbe(_)));
    }
    assert_eq!(sys.counter, 2);

    // neither hart is running under the expected host: both skip the
    // guest entirely, no setup and no run action is ever issued
    assert_eq!(sys.step(0, probe_foreign()), BootAction::Proceed);
    assert_eq!(sys.step(1, probe_foreign()), BootAction::Proceed);
    assert_eq!(sys.harts[0], HartPhase::Leaving);
    assert_eq!(sys.harts[1], HartPhase::Leaving);
    assert_eq!(sys.init_calls, 0);

    // both still participate in the counter bookkeeping
    assert_eq!(sys.step(0, BootEvent::Advance), BootAction::Proceed);
    assert_eq!(sys.harts[0], HartPhase::Exited);
    assert_eq!(sys.counter, 1);
    assert_eq!(sys.step(1, BootEvent::Advance), BootAction::Proceed);
    assert_eq!(sys.harts[1], HartPhase::Terminating);
    assert_eq!(sys.counter, 0);

    // and termination still triggers, exactly once
    match sys.step(1, BootEvent::Advance) {
        BootAction::IssueTerminate(call) => {
            assert_eq!(call.extension, 0x53525354);
            assert_eq!(call.param1, 0);
        },
        other => panic!("expected the termination request, got {:?}", other),
    }
    assert_eq!(sys.terminate_calls, 1);
    assert_eq!(sys.init_calls, 0);
}

#[test]
fn electing_hart_on_foreign_host_keeps_the_books() {
    let mut sys = BootSystem::new(1, 0x1000, 0x2000);
    assert!(matches!(sys.step(0, BootEvent::Advance), BootAction::IssueProbe(_)));
    assert_eq!(sys.counter, 1);
    // the electing hart's probe fails: it must skip the guest yet still
    // decrement the counter and trigger the shutdown
    assert_eq!(sys.step(0, probe_foreign()), BootAction::Proceed);
    assert_eq!(sys.harts[0], HartPhase::Leaving);
    assert_eq!(sys.step(0, BootEvent::Advance), BootAction::Proceed);
    assert_eq!(sys.counter, 0);
    assert!(matches!(sys.step(0, BootEvent::Advance), BootAction::IssueTerminate(_)));
    assert!(sys.terminated);
    assert_eq!(sys.init_calls, 0);
}

#[test]
fn late_arrival_cannot_cause_a_second_termination() {
    // hart 0 races through a whole boot before hart 1 even announces
    // itself; the termination request stops the world, so only one such
    // request is ever issued
    let mut sys = BootSystem::new(2, 0x1000, 0x2000);
    sys.step(0, BootEvent::Advance);
    sys.step(0, probe_ok());
    sys.step(0, BootEvent::Advance);  // heap bootstrap
    sys.step(0, BootEvent::Advance);  // publish
    sys.step(0, BootEvent::MainReturned);
    assert_eq!(sys.step(0, BootEvent::Advance), BootAction::Proceed);
    assert_eq!(sys.harts[0], HartPhase::Terminating);

    // hart 1 arrives while hart 0 still holds the termination duty
    assert!(matches!(sys.step(1, BootEvent::Advance), BootAction::IssueProbe(_)));
    assert_eq!(sys.counter, 1);

    // hart 0 issues the reset: the capsule is gone, nobody steps again
    assert!(matches!(sys.step(0, BootEvent::Advance), BootAction::IssueTerminate(_)));
    assert!(sys.terminated);
    assert_eq!(sys.terminate_calls, 1);
}

#[test]
fn waiters_drain_the_flag_one_at_a_time() {
    let mut sys = BootSystem::new(3, 0x1000, 0x2000);
    for h in 0..3 {
        sys.step(h, BootEvent::Advance);
        sys.step(h, probe_ok());
    }
    sys.step(0, BootEvent::Advance);  // heap bootstrap
    sys.step(0, BootEvent::Advance);  // publish
    assert!(sys.ready);

    // hart 2 takes the flag down; until it restores, hart 1 cannot pass
    assert_eq!(sys.step(2, BootEvent::Advance), BootAction::Proceed);
    assert_eq!(sys.step(1, BootEvent::Advance), BootAction::KeepWaiting);
    assert_eq!(sys.step(1, BootEvent::Advance), BootAction::KeepWaiting);
    // hart 2 restores on its way into the guest; now hart 1 passes
    assert_eq!(sys.step(2, BootEvent::Advance), BootAction::RunMain);
    assert_eq!(sys.step(1, BootEvent::Advance), BootAction::Proceed);
    assert_eq!(sys.step(1, BootEvent::Advance), BootAction::RunMain);
}
