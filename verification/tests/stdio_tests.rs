//! The console writer's retry protocol.

use svruntime::sbi::{putc, SyscallResult};
use svruntime::stdio::{write_step, Stdout, WriteDecision, WriteOutcome};

fn ok() -> SyscallResult {
    SyscallResult::new(0, 0, 0)
}

fn failed() -> SyscallResult {
    SyscallResult::new(-1, 0, 0)
}

fn not_supported() -> SyscallResult {
    SyscallResult::new(-2, 0, 0)
}

#[test]
fn three_transient_failures_then_success_completes() {
    // the writer retries the same character on every "failed" reply
    let mut out = Stdout;
    let replies = vec![failed(), failed(), failed(), ok()];
    let r = out.write_str("x", &replies);
    assert_eq!(r.outcome, WriteOutcome::Completed);
    assert_eq!(r.replies_used, 4);
    assert_eq!(r.chars_written, 1);
    // all four requests carry the same character
    assert_eq!(r.requests, vec![putc('x'), putc('x'), putc('x'), putc('x')]);
}

#[test]
fn not_supported_aborts_without_retry() {
    let mut out = Stdout;
    let replies = vec![not_supported(), ok(), ok()];
    let r = out.write_str("xy", &replies);
    assert_eq!(r.outcome, WriteOutcome::Aborted);
    assert_eq!(r.replies_used, 1);
    assert_eq!(r.chars_written, 0);
    assert_eq!(r.requests, vec![putc('x')]);
}

#[test]
fn denied_midway_aborts_the_whole_write() {
    let mut out = Stdout;
    let replies = vec![ok(), SyscallResult::new(-4, 0, 0)];
    let r = out.write_str("ab", &replies);
    assert_eq!(r.outcome, WriteOutcome::Aborted);
    assert_eq!(r.replies_used, 2);
    assert_eq!(r.chars_written, 1);
}

#[test]
fn clean_run_sends_each_character_once() {
    let mut out = Stdout;
    let replies = vec![ok(), ok(), ok()];
    let r = out.write_str("abc", &replies);
    assert_eq!(r.outcome, WriteOutcome::Completed);
    assert_eq!(r.replies_used, 3);
    assert_eq!(r.chars_written, 3);
    assert_eq!(r.requests, vec![putc('a'), putc('b'), putc('c')]);
}

#[test]
fn retry_resumes_on_the_stuck_character() {
    let mut out = Stdout;
    let replies = vec![ok(), failed(), ok()];
    let r = out.write_str("ab", &replies);
    assert_eq!(r.outcome, WriteOutcome::Completed);
    assert_eq!(r.replies_used, 3);
    assert_eq!(r.chars_written, 2);
    assert_eq!(r.requests, vec![putc('a'), putc('b'), putc('b')]);
}

#[test]
fn empty_string_needs_no_replies() {
    let mut out = Stdout;
    let r = out.write_str("", &Vec::new());
    assert_eq!(r.outcome, WriteOutcome::Completed);
    assert_eq!(r.replies_used, 0);
    assert_eq!(r.chars_written, 0);
    assert!(r.requests.is_empty());
}

#[test]
fn per_reply_decision_matches_the_protocol() {
    // the decision a live loop drives, one reply at a time
    assert_eq!(write_step(&ok()), WriteDecision::Advance);
    assert_eq!(write_step(&failed()), WriteDecision::RetrySame);
    assert_eq!(write_step(&not_supported()), WriteDecision::Abort);
    assert_eq!(write_step(&SyscallResult::new(-4, 0, 0)), WriteDecision::Abort);
    assert_eq!(write_step(&SyscallResult::new(-99, 0, 0)), WriteDecision::Abort);
}

#[test]
fn exhausted_replies_leave_the_write_pending() {
    let mut out = Stdout;
    let replies = vec![ok(), failed()];
    let r = out.write_str("abc", &replies);
    assert_eq!(r.outcome, WriteOutcome::Pending);
    assert_eq!(r.replies_used, 2);
    assert_eq!(r.chars_written, 1);
}
