//! The console writer: serializes a string through the call gate's
//! legacy put-char call, one character at a time.
//!
//! A transient "failed" reply makes the writer retry the same character;
//! any other error aborts the whole write.  The transfer of each request
//! happens outside the library, so the writer consumes a sequence of
//! replies, one per request it issues, and reports how far it got:
//! completed, aborted on a typed error, or pending because the reply
//! sequence ran out while characters remain.

use vstd::prelude::*;

verus! {

use crate::sbi;
use crate::sbi::{SbiCall, SyscallResult, SBI_ERR_FAILED};

/// How far a write got against the replies it was given.
#[derive(Clone, Copy, PartialEq, Eq, Structural, Debug)]
pub enum WriteOutcome {
    /// Every character was acknowledged with a success reply.
    Completed,
    /// A reply carried an error other than the transient "failed" code;
    /// the write stopped there and is not resumed.
    Aborted,
    /// The replies ran out while characters (or retries) remain; the
    /// writer would issue another request and wait.
    Pending,
}

/// What one run of the writer did: its outcome, how many replies it
/// consumed (one per request issued) and how many characters were
/// acknowledged.
pub ghost struct WriteRun {
    pub outcome: WriteOutcome,
    pub used: int,
    pub written: int,
}

/// The retry protocol, one reply at a time: a success reply advances to
/// the next character, a "failed" reply repeats the same character, any
/// other error ends the run.
pub open spec fn write_run(chars: Seq<char>, replies: Seq<SyscallResult>) -> WriteRun
    decreases chars.len() + replies.len(),
{
    if chars.len() == 0 {
        WriteRun { outcome: WriteOutcome::Completed, used: 0, written: 0 }
    } else if replies.len() == 0 {
        WriteRun { outcome: WriteOutcome::Pending, used: 0, written: 0 }
    } else if replies[0].spec_error() == 0 {
        let rest = write_run(chars.drop_first(), replies.drop_first());
        WriteRun { outcome: rest.outcome, used: rest.used + 1, written: rest.written + 1 }
    } else if replies[0].spec_error() == SBI_ERR_FAILED {
        let rest = write_run(chars, replies.drop_first());
        WriteRun { outcome: rest.outcome, used: rest.used + 1, written: rest.written }
    } else {
        WriteRun { outcome: WriteOutcome::Aborted, used: 1, written: 0 }
    }
}

/// The requests the writer issues along such a run: one put-char request
/// for the character under attempt, per reply consumed.
pub open spec fn write_requests(chars: Seq<char>, replies: Seq<SyscallResult>) -> Seq<SbiCall>
    decreases chars.len() + replies.len(),
{
    if chars.len() == 0 {
        Seq::empty()
    } else if replies.len() == 0 {
        Seq::empty()
    } else if replies[0].spec_error() == 0 {
        seq![sbi::putc_call_spec(chars[0])] + write_requests(chars.drop_first(), replies.drop_first())
    } else if replies[0].spec_error() == SBI_ERR_FAILED {
        seq![sbi::putc_call_spec(chars[0])] + write_requests(chars, replies.drop_first())
    } else {
        seq![sbi::putc_call_spec(chars[0])]
    }
}

/// What the writer does with the character under attempt after one
/// reply.
#[derive(Clone, Copy, PartialEq, Eq, Structural, Debug)]
pub enum WriteDecision {
    /// Success: move on to the next character.
    Advance,
    /// The transient "failed" reply: send the same character again.
    RetrySame,
    /// Any other error: give up on the whole write.
    Abort,
}

/// The decision the protocol takes on one reply.
pub open spec fn spec_write_decision(r: SyscallResult) -> WriteDecision {
    if r.spec_error() == 0 {
        WriteDecision::Advance
    } else if r.spec_error() == SBI_ERR_FAILED {
        WriteDecision::RetrySame
    } else {
        WriteDecision::Abort
    }
}

/// Decide on one reply.  A live loop that sends a character and gets
/// one reply back drives the protocol with this, one call per reply, in
/// place of the batch run over a collected reply sequence.
pub fn write_step(reply: &SyscallResult) -> (d: WriteDecision)
    ensures
        d == spec_write_decision(*reply),
{
    let code = reply.get_error_value();
    if code == 0 {
        WriteDecision::Advance
    } else if code == SBI_ERR_FAILED {
        WriteDecision::RetrySame
    } else {
        WriteDecision::Abort
    }
}

/// One decision is one unfolding of the protocol: with a character
/// still to send and a reply in hand, the run is exactly what the
/// decision on that reply says, followed by the run on what remains.
pub proof fn lemma_decision_drives_run(chars: Seq<char>, replies: Seq<SyscallResult>)
    requires
        chars.len() > 0,
        replies.len() > 0,
    ensures
        (match spec_write_decision(replies[0]) {
            WriteDecision::Advance => write_run(chars, replies) == (WriteRun {
                outcome: write_run(chars.drop_first(), replies.drop_first()).outcome,
                used: write_run(chars.drop_first(), replies.drop_first()).used + 1,
                written: write_run(chars.drop_first(), replies.drop_first()).written + 1,
            }),
            WriteDecision::RetrySame => write_run(chars, replies) == (WriteRun {
                outcome: write_run(chars, replies.drop_first()).outcome,
                used: write_run(chars, replies.drop_first()).used + 1,
                written: write_run(chars, replies.drop_first()).written,
            }),
            WriteDecision::Abort => write_run(chars, replies) == (WriteRun {
                outcome: WriteOutcome::Aborted,
                used: 1,
                written: 0,
            }),
        }),
{
}

/// A completed run acknowledged every character, and a run never uses
/// more replies than it was given nor writes more characters than it has.
pub proof fn lemma_write_run_bounds(chars: Seq<char>, replies: Seq<SyscallResult>)
    ensures
        0 <= write_run(chars, replies).used <= replies.len(),
        0 <= write_run(chars, replies).written <= chars.len(),
        write_run(chars, replies).outcome == WriteOutcome::Completed ==> write_run(
            chars,
            replies,
        ).written == chars.len(),
    decreases chars.len() + replies.len(),
{
    if chars.len() == 0 {
    } else if replies.len() == 0 {
    } else if replies[0].spec_error() == 0 {
        lemma_write_run_bounds(chars.drop_first(), replies.drop_first());
    } else if replies[0].spec_error() == SBI_ERR_FAILED {
        lemma_write_run_bounds(chars, replies.drop_first());
    } else {
    }
}

/// A transient "failed" reply is transparent: with a character still to
/// send, it costs one more request and changes nothing else — however
/// many arrive in a row, the writer retries until a different reply.
pub proof fn lemma_transient_failure_transparent(
    chars: Seq<char>,
    r: SyscallResult,
    replies: Seq<SyscallResult>,
)
    requires
        chars.len() > 0,
        r.spec_error() == SBI_ERR_FAILED,
    ensures
        write_run(chars, seq![r] + replies).outcome == write_run(chars, replies).outcome,
        write_run(chars, seq![r] + replies).used == 1 + write_run(chars, replies).used,
        write_run(chars, seq![r] + replies).written == write_run(chars, replies).written,
{
    let whole = seq![r] + replies;
    assert(whole[0] == r);
    assert(whole.drop_first() =~= replies);
}

/// Any error reply other than the transient "failed" ends the write at
/// once: one request was spent, nothing was written, whatever replies
/// would have followed.
pub proof fn lemma_fatal_error_aborts(
    chars: Seq<char>,
    r: SyscallResult,
    replies: Seq<SyscallResult>,
)
    requires
        chars.len() > 0,
        r.spec_error() != 0,
        r.spec_error() != SBI_ERR_FAILED,
    ensures
        write_run(chars, seq![r] + replies).outcome == WriteOutcome::Aborted,
        write_run(chars, seq![r] + replies).used == 1,
        write_run(chars, seq![r] + replies).written == 0,
{
    let whole = seq![r] + replies;
    assert(whole[0] == r);
}

/// The system's standard output device.
pub struct Stdout;

/// What one call of the writer did, with the requests it issued.
pub struct WriteReport {
    pub outcome: WriteOutcome,
    pub replies_used: usize,
    pub chars_written: usize,
    pub requests: Vec<SbiCall>,
}

impl Stdout {
    /// Run the write protocol for the characters of `s` against the
    /// given replies.  Returns what the run did and the requests it
    /// issued, exactly as the protocol specifies.
    pub fn write_str(&mut self, s: &str, replies: &Vec<SyscallResult>) -> (r: WriteReport)
        ensures
            r.outcome == write_run(s@, replies@).outcome,
            r.replies_used as int == write_run(s@, replies@).used,
            r.chars_written as int == write_run(s@, replies@).written,
            r.requests@ == write_requests(s@, replies@),
    {
        let cs = chars_vec(s);
        let mut written: usize = 0;
        let mut used: usize = 0;
        let mut requests: Vec<SbiCall> = Vec::new();
        let mut outcome = WriteOutcome::Pending;
        proof {
            lemma_write_run_bounds(s@, replies@);
            assert(cs@.skip(0) =~= cs@);
            assert(replies@.skip(0) =~= replies@);
        }
        loop
            invariant
                cs@ == s@,
                written <= cs.len(),
                used <= replies.len(),
                requests@.len() == used,
                write_run(s@, replies@).outcome == write_run(
                    cs@.skip(written as int),
                    replies@.skip(used as int),
                ).outcome,
                write_run(s@, replies@).used == used + write_run(
                    cs@.skip(written as int),
                    replies@.skip(used as int),
                ).used,
                write_run(s@, replies@).written == written + write_run(
                    cs@.skip(written as int),
                    replies@.skip(used as int),
                ).written,
                write_requests(s@, replies@) == requests@ + write_requests(
                    cs@.skip(written as int),
                    replies@.skip(used as int),
                ),
            ensures
                (written == cs.len() && outcome == WriteOutcome::Completed) || (written < cs.len()
                    && used == replies.len() && outcome == WriteOutcome::Pending),
            decreases replies.len() - used,
        {
            if written == cs.len() {
                outcome = WriteOutcome::Completed;
                break;
            }
            if used == replies.len() {
                outcome = WriteOutcome::Pending;
                break;
            }
            let ghost rem_chars = cs@.skip(written as int);
            let ghost rem_replies = replies@.skip(used as int);
            proof {
                assert(rem_chars.len() > 0);
                assert(rem_replies.len() > 0);
                assert(rem_chars[0] == cs@[written as int]);
                assert(rem_replies[0] == replies@[used as int]);
                assert(rem_chars.drop_first() =~= cs@.skip(written as int + 1));
                assert(rem_replies.drop_first() =~= replies@.skip(used as int + 1));
            }
            requests.push(sbi::putc(cs[written]));
            let reply = replies[used];
            used = used + 1;
            let code = reply.get_error_value();
            if code == 0 {
                written = written + 1;
                proof {
                    let rest = write_run(rem_chars.drop_first(), rem_replies.drop_first());
                    assert(write_run(rem_chars, rem_replies).outcome == rest.outcome);
                    assert(write_run(rem_chars, rem_replies).used == rest.used + 1);
                    assert(write_run(rem_chars, rem_replies).written == rest.written + 1);
                    assert(write_requests(rem_chars, rem_replies) == seq![
                        sbi::putc_call_spec(rem_chars[0]),
                    ] + write_requests(rem_chars.drop_first(), rem_replies.drop_first()));
                    assert(requests@ + write_requests(
                        cs@.skip(written as int),
                        replies@.skip(used as int),
                    ) =~= write_requests(s@, replies@));
                    lemma_write_run_bounds(
                        cs@.skip(written as int),
                        replies@.skip(used as int),
                    );
                }
            } else if code == SBI_ERR_FAILED {
                // transient failure: retry the same character
                proof {
                    let rest = write_run(rem_chars, rem_replies.drop_first());
                    assert(write_run(rem_chars, rem_replies).outcome == rest.outcome);
                    assert(write_run(rem_chars, rem_replies).used == rest.used + 1);
                    assert(write_run(rem_chars, rem_replies).written == rest.written);
                    assert(write_requests(rem_chars, rem_replies) == seq![
                        sbi::putc_call_spec(rem_chars[0]),
                    ] + write_requests(rem_chars, rem_replies.drop_first()));
                    assert(requests@ + write_requests(
                        cs@.skip(written as int),
                        replies@.skip(used as int),
                    ) =~= write_requests(s@, replies@));
                    lemma_write_run_bounds(
                        cs@.skip(written as int),
                        replies@.skip(used as int),
                    );
                }
            } else {
                outcome = WriteOutcome::Aborted;
                proof {
                    assert(write_run(rem_chars, rem_replies).outcome == WriteOutcome::Aborted);
                    assert(write_run(rem_chars, rem_replies).used == 1);
                    assert(write_run(rem_chars, rem_replies).written == 0);
                    assert(write_requests(rem_chars, rem_replies) =~= seq![
                        sbi::putc_call_spec(rem_chars[0]),
                    ]);
                    assert(requests@ =~= write_requests(s@, replies@));
                }
                return WriteReport {
                    outcome,
                    replies_used: used,
                    chars_written: written,
                    requests,
                };
            }
        }
        proof {
            if written == cs.len() {
                assert(cs@.skip(written as int) =~= Seq::<char>::empty());
            } else {
                assert(replies@.skip(used as int) =~= Seq::<SyscallResult>::empty());
            }
            assert(requests@ + write_requests(
                cs@.skip(written as int),
                replies@.skip(used as int),
            ) =~= requests@);
        }
        WriteReport { outcome, replies_used: used, chars_written: written, requests }
    }
}

/// Collect the characters of a string slice, in order.
fn chars_vec(s: &str) -> (r: Vec<char>)
    ensures
        r@ == s@,
{
    let mut r: Vec<char> = Vec::new();
    for c in it: s.chars()
        invariant
            r@ == it.seq().subrange(0, it.index() as int),
    {
        r.push(c);
    }
    proof {
        assert(r@ =~= s@);
    }
    r
}

} // verus!
