//! The boot barrier: coordination of every hardware thread ("hart") that
//! lands at the shared entry point.
//!
//! Hart 0 is elected to probe the host and initialize the heap arena
//! exactly once; every other hart spins on a one-shot readiness flag with
//! a take-and-restore exchange until setup is published.  A shared
//! counter tracks how many harts are executing the guest application;
//! the hart whose decrement takes the counter from one to zero issues the
//! termination request, which never returns.
//!
//! The harts run concurrently on real hardware, one atomic operation at
//! a time.  Here the whole system is one explicit state — the shared
//! words plus each hart's position in its state machine — and `step`
//! performs one hart's next atomic operation.  Any interleaving of the
//! hardware is a sequence of `step` calls, so what is proved invariant
//! under `step` holds under full concurrency.  Work only the outside
//! world can do (the probe transfer, the allocator, the guest `main`,
//! the reset) is handed back as a [`BootAction`]; its result comes back
//! as the next [`BootEvent`].

use vstd::prelude::*;

verus! {

use vstd::pervasive::VecAdditionalExecFns;
use vstd::pervasive::unreached;

use crate::sbi;
use crate::sbi::{SbiCall, SyscallResult, SBI_DIOSIX_IMPL_ID, SBI_EXT_SYS_RESET_REASON};

/// The dynamic-memory arena: initialized once, before any allocation,
/// and never resized or freed for the process lifetime.
#[derive(Clone, Copy, PartialEq, Eq, Structural, Debug)]
pub struct HeapRegion {
    pub start: usize,
    pub end: usize,
}

impl HeapRegion {
    /// A region is a non-empty address range.
    pub open spec fn wf(self) -> bool {
        self.start < self.end
    }

    /// The arena's size in bytes.
    pub fn size(&self) -> (r: usize)
        requires
            self.wf(),
        ensures
            r == self.end - self.start,
    {
        self.end - self.start
    }
}

/// One-time construction of the heap arena from its bounds.  Must run at
/// most once, before any allocation; the electing hart's path is the
/// only caller.  The allocator itself lives outside the library and is
/// handed this region.
pub fn init(heap_start: usize, heap_end: usize) -> (r: HeapRegion)
    requires
        heap_start < heap_end,
    ensures
        r == (HeapRegion { start: heap_start, end: heap_end }),
        r.wf(),
{
    HeapRegion { start: heap_start, end: heap_end }
}

/// Where one hart stands in the boot state machine.
#[derive(Clone, Copy, PartialEq, Eq, Structural, Debug)]
pub enum HartPhase {
    /// About to announce itself by incrementing the thread counter.
    Arriving,
    /// Counted; waiting for the reply to the host probe.
    Probing,
    /// Hart 0 on the expected host: about to initialize the heap.
    Initializing,
    /// Hart 0: heap ready, about to publish the readiness flag.
    Publishing,
    /// A non-electing hart spinning on the readiness flag.
    Waiting,
    /// Took the readiness flag; about to restore it for the next waiter.
    Restoring,
    /// Executing the guest application.
    Running,
    /// Done (or skipping the guest): about to decrement the counter.
    Leaving,
    /// Decremented the counter from one to zero: must issue termination.
    Terminating,
    /// Decremented and found other harts still running; finished.
    Exited,
}

/// What the outside world reports back into a hart's state machine.
#[derive(Clone, Copy, PartialEq, Eq, Structural, Debug)]
pub enum BootEvent {
    /// The hart's next operation needs no outside input.
    Advance,
    /// The reply to the host-probe request.
    ProbeReply(SyscallResult),
    /// The guest application's entry returned.
    MainReturned,
}

/// What the caller must do after a step before stepping that hart again.
#[derive(Clone, Copy, PartialEq, Eq, Structural, Debug)]
pub enum BootAction {
    /// Transfer this probe request and hand the reply back as
    /// [`BootEvent::ProbeReply`].
    IssueProbe(SbiCall),
    /// Initialize the allocator over this arena.
    InitHeap(HeapRegion),
    /// Call the guest application's entry; report back with
    /// [`BootEvent::MainReturned`].
    RunMain,
    /// The readiness flag was not up yet: spin and step again.
    KeepWaiting,
    /// Transfer this termination request; it does not return, and if the
    /// host hands control back anyway, spin forever.
    IssueTerminate(SbiCall),
    /// Internal transition: nothing to do outside.
    Proceed,
}

/// How many phases of `s` satisfy `f`.
pub open spec fn count_matching(s: Seq<HartPhase>, f: spec_fn(HartPhase) -> bool) -> int
    decreases s.len(),
{
    if s.len() == 0 {
        0
    } else {
        count_matching(s.drop_last(), f) + if f(s.last()) {
            1int
        } else {
            0int
        }
    }
}

pub proof fn lemma_count_bounds(s: Seq<HartPhase>, f: spec_fn(HartPhase) -> bool)
    ensures
        0 <= count_matching(s, f) <= s.len(),
    decreases s.len(),
{
    if s.len() > 0 {
        lemma_count_bounds(s.drop_last(), f);
    }
}

/// Replacing one phase changes the count by the difference at that slot.
pub proof fn lemma_count_update(
    s: Seq<HartPhase>,
    f: spec_fn(HartPhase) -> bool,
    i: int,
    p: HartPhase,
)
    requires
        0 <= i < s.len(),
    ensures
        count_matching(s.update(i, p), f) == count_matching(s, f) - (if f(s[i]) {
            1int
        } else {
            0int
        }) + (if f(p) {
            1int
        } else {
            0int
        }),
    decreases s.len(),
{
    let t = s.update(i, p);
    if i == s.len() - 1 {
        assert(t.drop_last() =~= s.drop_last());
        assert(t.last() == p);
    } else {
        assert(t.drop_last() =~= s.drop_last().update(i, p));
        assert(t.last() == s.last());
        lemma_count_update(s.drop_last(), f, i, p);
    }
}

/// A zero count means no phase satisfies `f`.
pub proof fn lemma_count_zero(s: Seq<HartPhase>, f: spec_fn(HartPhase) -> bool)
    requires
        count_matching(s, f) == 0,
    ensures
        forall|j: int| 0 <= j < s.len() ==> !f(s[j]),
    decreases s.len(),
{
    if s.len() > 0 {
        lemma_count_bounds(s.drop_last(), f);
        lemma_count_zero(s.drop_last(), f);
        assert(forall|j: int| 0 <= j < s.len() - 1 ==> s[j] == s.drop_last()[j]);
    }
}

/// A satisfying slot makes the count positive.
pub proof fn lemma_count_pos(s: Seq<HartPhase>, f: spec_fn(HartPhase) -> bool, i: int)
    requires
        0 <= i < s.len(),
        f(s[i]),
    ensures
        count_matching(s, f) >= 1,
    decreases s.len(),
{
    lemma_count_bounds(s.drop_last(), f);
    if i < s.len() - 1 {
        lemma_count_pos(s.drop_last(), f, i);
    }
}

/// Two distinct satisfying slots make the count at least two.
pub proof fn lemma_count_two(s: Seq<HartPhase>, f: spec_fn(HartPhase) -> bool, i: int, j: int)
    requires
        0 <= i < s.len(),
        0 <= j < s.len(),
        i != j,
        f(s[i]),
        f(s[j]),
    ensures
        count_matching(s, f) >= 2,
    decreases s.len(),
{
    if i == s.len() - 1 {
        lemma_count_pos(s.drop_last(), f, j);
    } else if j == s.len() - 1 {
        lemma_count_pos(s.drop_last(), f, i);
    } else {
        lemma_count_two(s.drop_last(), f, i, j);
        lemma_count_bounds(s.drop_last(), f);
    }
}

/// If nothing satisfies `f` the count is zero.
pub proof fn lemma_count_none(s: Seq<HartPhase>, f: spec_fn(HartPhase) -> bool)
    requires
        forall|j: int| 0 <= j < s.len() ==> !f(s[j]),
    ensures
        count_matching(s, f) == 0,
    decreases s.len(),
{
    if s.len() > 0 {
        assert(forall|j: int| 0 <= j < s.len() - 1 ==> s.drop_last()[j] == s[j]);
        lemma_count_none(s.drop_last(), f);
    }
}

/// A positive count exhibits a satisfying slot.
pub proof fn lemma_count_exists(s: Seq<HartPhase>, f: spec_fn(HartPhase) -> bool)
    requires
        count_matching(s, f) >= 1,
    ensures
        exists|j: int| 0 <= j < s.len() && f(s[j]),
    decreases s.len(),
{
    if s.len() > 0 {
        if f(s.last()) {
            assert(0 <= s.len() - 1 < s.len() && f(s[s.len() - 1]));
        } else {
            lemma_count_exists(s.drop_last(), f);
            let j = choose|j: int| 0 <= j < s.drop_last().len() && f(s.drop_last()[j]);
            assert(0 <= j < s.len() && f(s[j]));
        }
    }
}

/// A hart that has announced itself and not yet decremented the counter.
pub open spec fn is_counted(p: HartPhase) -> bool {
    ||| p is Probing
    ||| p is Initializing
    ||| p is Publishing
    ||| p is Waiting
    ||| p is Restoring
    ||| p is Running
    ||| p is Leaving
}

/// `is_counted` as a function value, so every count speaks of one term.
pub open spec fn counted_fn() -> spec_fn(HartPhase) -> bool {
    |p: HartPhase| is_counted(p)
}

/// `Terminating` as a function value.
pub open spec fn terminating_fn() -> spec_fn(HartPhase) -> bool {
    |p: HartPhase| p is Terminating
}

/// The whole boot system: the shared words every hart can touch, each
/// hart's phase, and the bookkeeping of the one-shot duties.
pub struct BootSystem {
    /// Each hart's position in the state machine.
    pub harts: Vec<HartPhase>,
    /// The shared thread counter: harts executing between their
    /// increment and their decrement.
    pub counter: usize,
    /// The one-shot readiness flag the waiters spin on.
    pub ready: bool,
    /// The heap arena, once the electing hart has initialized it.
    pub heap: Option<HeapRegion>,
    /// The arena bounds every hart enters with.
    pub heap_start: usize,
    pub heap_end: usize,
    /// How many heap-initialization actions have been issued.
    pub init_calls: usize,
    /// How many termination requests have been issued.
    pub terminate_calls: usize,
    /// True once a termination request was issued: the host destroys the
    /// capsule, so no hart takes another step.
    pub terminated: bool,
}

impl BootSystem {
    pub open spec fn n(self) -> int {
        self.harts@.len() as int
    }

    pub open spec fn phase(self, i: int) -> HartPhase {
        self.harts@[i]
    }

    /// Harts counted by the thread counter.
    pub open spec fn counted_count(self) -> int {
        count_matching(self.harts@, counted_fn())
    }

    /// Harts holding the termination duty.
    pub open spec fn terminating_count(self) -> int {
        count_matching(self.harts@, terminating_fn())
    }

    /// Every hart has announced itself: the boot's concurrent-entry
    /// premise, preserved by every step once it holds.
    pub open spec fn all_entered(self) -> bool {
        forall|i: int| 0 <= i < self.n() ==> !(self.phase(i) is Arriving)
    }

    /// What holds of every reachable state.
    pub open spec fn inv(self) -> bool {
        &&& self.heap_start < self.heap_end
        // the counter counts exactly the harts between increment and decrement
        &&& self.counter as int == self.counted_count()
        // the readiness flag is published only after the heap exists
        &&& (self.ready ==> self.heap is Some)
        // only hart 0 takes the electing path
        &&& (forall|i: int|
            0 <= i < self.n() && (self.phase(i) is Initializing || self.phase(i) is Publishing)
                ==> i == 0)
        // no hart reaches the guest application before the heap exists
        &&& (forall|i: int|
            0 <= i < self.n() && (self.phase(i) is Publishing || self.phase(i) is Restoring
                || self.phase(i) is Running) ==> self.heap is Some)
        // the heap, once made, is the arena the system was built with
        &&& (self.heap matches Some(h) ==> h == (HeapRegion {
            start: self.heap_start,
            end: self.heap_end,
        }))
        // the heap exists exactly when one initialization was issued
        &&& (self.init_calls as int == if self.heap is Some {
            1int
        } else {
            0int
        })
        // once the heap exists the electing hart is past its init step,
        // so initialization cannot be issued a second time
        &&& (self.heap is Some && self.n() > 0 ==> (self.phase(0) is Publishing || self.phase(0)
            is Running || self.phase(0) is Leaving || self.phase(0) is Terminating || self.phase(0)
            is Exited))
        // a termination request has been issued exactly when the world
        // stopped, so never a second one
        &&& (self.terminate_calls as int == if self.terminated {
            1int
        } else {
            0int
        })
        // once every hart is in and the counter has drained, some hart
        // holds the termination duty (or has already discharged it)
        &&& (self.all_entered() && self.counter == 0 && self.n() > 0 && !self.terminated
            ==> self.terminating_count() >= 1)
    }

    /// The boot premise and what follows from it: every hart has entered,
    /// at most one hart ever holds the termination duty, and while one
    /// does the counter has drained for good.  `new` starts below this
    /// (harts still arriving); once a state satisfies it, every step
    /// preserves it.
    pub open spec fn settled(self) -> bool {
        &&& self.all_entered()
        &&& self.terminating_count() <= 1
        &&& (self.terminating_count() >= 1 ==> self.counter == 0)
    }
}

/// Which event a hart's next operation consumes.  A finished hart has no
/// next operation.
pub open spec fn event_fits(p: HartPhase, ev: BootEvent) -> bool {
    match p {
        HartPhase::Probing => ev is ProbeReply,
        HartPhase::Running => ev is MainReturned,
        HartPhase::Exited => false,
        _ => ev is Advance,
    }
}

/// Hart `i` moves to phase `p`; nobody else moves; the arena bounds
/// never change.
pub open spec fn step_frame(pre: BootSystem, post: BootSystem, i: int, p: HartPhase) -> bool {
    &&& post.harts@ == pre.harts@.update(i, p)
    &&& post.heap_start == pre.heap_start
    &&& post.heap_end == pre.heap_end
}

/// The shared words are untouched.
pub open spec fn shared_same(pre: BootSystem, post: BootSystem) -> bool {
    &&& post.counter == pre.counter
    &&& post.ready == pre.ready
    &&& post.heap == pre.heap
}

/// The one-shot bookkeeping is untouched.
pub open spec fn books_same(pre: BootSystem, post: BootSystem) -> bool {
    &&& post.init_calls == pre.init_calls
    &&& post.terminate_calls == pre.terminate_calls
    &&& post.terminated == pre.terminated
}

/// One hart's next atomic operation, exactly: what changes, and which
/// action the outside world owes back.
pub open spec fn step_rel(
    pre: BootSystem,
    i: int,
    ev: BootEvent,
    post: BootSystem,
    action: BootAction,
) -> bool {
    match pre.harts@[i] {
        HartPhase::Arriving => {
            // announce: one atomic fetch-and-add on the counter
            &&& step_frame(pre, post, i, HartPhase::Probing)
            &&& post.counter == pre.counter + 1
            &&& post.ready == pre.ready
            &&& post.heap == pre.heap
            &&& books_same(pre, post)
            &&& action == BootAction::IssueProbe(sbi::probe_call_spec())
        },
        HartPhase::Probing => {
            // decide on the probe reply: elect, wait, or skip the guest
            &&& shared_same(pre, post)
            &&& books_same(pre, post)
            &&& action == BootAction::Proceed
            &&& (ev matches BootEvent::ProbeReply(r) && {
                let expected = r.spec_error() == 0 && r.spec_value1() == SBI_DIOSIX_IMPL_ID;
                if expected && i == 0 {
                    step_frame(pre, post, i, HartPhase::Initializing)
                } else if expected {
                    step_frame(pre, post, i, HartPhase::Waiting)
                } else {
                    step_frame(pre, post, i, HartPhase::Leaving)
                }
            })
        },
        HartPhase::Initializing => {
            // the one-time heap bootstrap
            &&& step_frame(pre, post, i, HartPhase::Publishing)
            &&& post.counter == pre.counter
            &&& post.ready == pre.ready
            &&& post.heap == Some(HeapRegion { start: pre.heap_start, end: pre.heap_end })
            &&& post.init_calls == pre.init_calls + 1
            &&& post.terminate_calls == pre.terminate_calls
            &&& post.terminated == pre.terminated
            &&& action == BootAction::InitHeap(
                HeapRegion { start: pre.heap_start, end: pre.heap_end },
            )
        },
        HartPhase::Publishing => {
            // one atomic swap publishing the readiness flag
            &&& step_frame(pre, post, i, HartPhase::Running)
            &&& post.counter == pre.counter
            &&& post.ready == true
            &&& post.heap == pre.heap
            &&& books_same(pre, post)
            &&& action == BootAction::RunMain
        },
        HartPhase::Waiting => {
            // one take-and-test attempt: swap false in, look at what came out
            &&& post.counter == pre.counter
            &&& post.ready == false
            &&& post.heap == pre.heap
            &&& books_same(pre, post)
            &&& if pre.ready {
                step_frame(pre, post, i, HartPhase::Restoring) && action == BootAction::Proceed
            } else {
                step_frame(pre, post, i, HartPhase::Waiting) && action == BootAction::KeepWaiting
            }
        },
        HartPhase::Restoring => {
            // hand the flag back so exactly one more waiter may pass
            &&& step_frame(pre, post, i, HartPhase::Running)
            &&& post.counter == pre.counter
            &&& post.ready == true
            &&& post.heap == pre.heap
            &&& books_same(pre, post)
            &&& action == BootAction::RunMain
        },
        HartPhase::Running => {
            // the guest application came back
            &&& step_frame(pre, post, i, HartPhase::Leaving)
            &&& shared_same(pre, post)
            &&& books_same(pre, post)
            &&& action == BootAction::Proceed
        },
        HartPhase::Leaving => {
            // one atomic fetch-and-sub; seeing one means being last out
            &&& post.counter == pre.counter - 1
            &&& post.ready == pre.ready
            &&& post.heap == pre.heap
            &&& books_same(pre, post)
            &&& if pre.counter == 1 {
                step_frame(pre, post, i, HartPhase::Terminating) && action == BootAction::Proceed
            } else {
                step_frame(pre, post, i, HartPhase::Exited) && action == BootAction::Proceed
            }
        },
        HartPhase::Terminating => {
            // issue the termination request; the capsule is gone
            &&& step_frame(pre, post, i, HartPhase::Terminating)
            &&& shared_same(pre, post)
            &&& post.init_calls == pre.init_calls
            &&& post.terminate_calls == pre.terminate_calls + 1
            &&& post.terminated == true
            &&& action == BootAction::IssueTerminate(
                sbi::shutdown_call_spec(SBI_EXT_SYS_RESET_REASON::NoReason),
            )
        },
        HartPhase::Exited => false,
    }
}

/// If every hart has entered after a step that moved one hart between
/// non-arriving phases, every hart had entered before it.
proof fn lemma_entered_back(pre: BootSystem, post: BootSystem, i: int, p: HartPhase)
    requires
        0 <= i < pre.n(),
        post.harts@ == pre.harts@.update(i, p),
        !(pre.harts@[i] is Arriving),
        post.all_entered(),
    ensures
        pre.all_entered(),
{
    assert forall|j: int| 0 <= j < pre.n() implies !(pre.phase(j) is Arriving) by {
        if j != i {
            assert(!(post.phase(j) is Arriving));
        }
    }
}

/// Every step preserves the reachable-state invariant: whatever
/// interleaving the hardware produces, the boot protocol keeps its
/// books straight.
pub proof fn lemma_step_preserves_inv(
    pre: BootSystem,
    i: int,
    ev: BootEvent,
    post: BootSystem,
    action: BootAction,
)
    requires
        pre.inv(),
        !pre.terminated,
        0 <= i < pre.n(),
        event_fits(pre.harts@[i], ev),
        step_rel(pre, i, ev, post, action),
    ensures
        post.inv(),
{
    let s = pre.harts@;
    let t = post.harts@;
    assert(pre.phase(i) == s[i]);
    assert(forall|j: int| 0 <= j < pre.n() ==> pre.phase(j) == s[j]);
    assert(forall|j: int| 0 <= j < post.n() ==> post.phase(j) == t[j]);
    match pre.harts@[i] {
        HartPhase::Arriving => {
            lemma_count_update(s, counted_fn(), i, HartPhase::Probing);
            lemma_count_update(s, terminating_fn(), i, HartPhase::Probing);
            assert(post.counter as int == post.counted_count());
        },
        HartPhase::Probing => {
            let r = ev->ProbeReply_0;
            let expected = r.spec_error() == 0 && r.spec_value1() == SBI_DIOSIX_IMPL_ID;
            let p = if expected && i == 0 {
                HartPhase::Initializing
            } else if expected {
                HartPhase::Waiting
            } else {
                HartPhase::Leaving
            };
            lemma_count_update(s, counted_fn(), i, p);
            lemma_count_update(s, terminating_fn(), i, p);
            if post.all_entered() {
                lemma_entered_back(pre, post, i, p);
            }
        },
        HartPhase::Initializing => {
            lemma_count_update(s, counted_fn(), i, HartPhase::Publishing);
            lemma_count_update(s, terminating_fn(), i, HartPhase::Publishing);
            // only hart 0 initializes, and it had not yet: the heap was
            // still absent, so this is the first initialization
            assert(i == 0);
            assert(pre.heap is None);
            if post.all_entered() {
                lemma_entered_back(pre, post, i, HartPhase::Publishing);
            }
        },
        HartPhase::Publishing => {
            lemma_count_update(s, counted_fn(), i, HartPhase::Running);
            lemma_count_update(s, terminating_fn(), i, HartPhase::Running);
            assert(pre.heap is Some);
            if post.all_entered() {
                lemma_entered_back(pre, post, i, HartPhase::Running);
            }
        },
        HartPhase::Waiting => {
            let p = if pre.ready {
                HartPhase::Restoring
            } else {
                HartPhase::Waiting
            };
            lemma_count_update(s, counted_fn(), i, p);
            lemma_count_update(s, terminating_fn(), i, p);
            if post.all_entered() {
                lemma_entered_back(pre, post, i, p);
            }
        },
        HartPhase::Restoring => {
            lemma_count_update(s, counted_fn(), i, HartPhase::Running);
            lemma_count_update(s, terminating_fn(), i, HartPhase::Running);
            if post.all_entered() {
                lemma_entered_back(pre, post, i, HartPhase::Running);
            }
        },
        HartPhase::Running => {
            lemma_count_update(s, counted_fn(), i, HartPhase::Leaving);
            lemma_count_update(s, terminating_fn(), i, HartPhase::Leaving);
            if post.all_entered() {
                lemma_entered_back(pre, post, i, HartPhase::Leaving);
            }
        },
        HartPhase::Leaving => {
            if pre.counter == 1 {
                lemma_count_update(s, counted_fn(), i, HartPhase::Terminating);
                lemma_count_update(s, terminating_fn(), i, HartPhase::Terminating);
                lemma_count_pos(t, terminating_fn(), i);
            } else {
                lemma_count_pos(s, counted_fn(), i);
                lemma_count_update(s, counted_fn(), i, HartPhase::Exited);
                lemma_count_update(s, terminating_fn(), i, HartPhase::Exited);
            }
        },
        HartPhase::Terminating => {
            assert(t =~= s);
        },
        HartPhase::Exited => {
        },
    }
}

/// Once the boot has settled — every hart entered — steps keep it
/// settled: at most one hart ever holds the termination duty, and while
/// one does, the counter has drained for good.
pub proof fn lemma_step_preserves_settled(
    pre: BootSystem,
    i: int,
    ev: BootEvent,
    post: BootSystem,
    action: BootAction,
)
    requires
        pre.inv(),
        pre.settled(),
        !pre.terminated,
        0 <= i < pre.n(),
        event_fits(pre.harts@[i], ev),
        step_rel(pre, i, ev, post, action),
    ensures
        post.settled(),
{
    let s = pre.harts@;
    let t = post.harts@;
    assert(pre.phase(i) == s[i]);
    assert(forall|j: int| 0 <= j < pre.n() ==> pre.phase(j) == s[j]);
    assert(forall|j: int| 0 <= j < post.n() ==> post.phase(j) == t[j]);
    match pre.harts@[i] {
        HartPhase::Arriving => {
            // excluded: the boot has settled, nobody is still arriving
            assert(false);
        },
        HartPhase::Probing => {
            let r = ev->ProbeReply_0;
            let expected = r.spec_error() == 0 && r.spec_value1() == SBI_DIOSIX_IMPL_ID;
            let p = if expected && i == 0 {
                HartPhase::Initializing
            } else if expected {
                HartPhase::Waiting
            } else {
                HartPhase::Leaving
            };
            lemma_count_update(s, terminating_fn(), i, p);
        },
        HartPhase::Initializing => {
            lemma_count_update(s, terminating_fn(), i, HartPhase::Publishing);
        },
        HartPhase::Publishing => {
            lemma_count_update(s, terminating_fn(), i, HartPhase::Running);
        },
        HartPhase::Waiting => {
            let p = if pre.ready {
                HartPhase::Restoring
            } else {
                HartPhase::Waiting
            };
            lemma_count_update(s, terminating_fn(), i, p);
        },
        HartPhase::Restoring => {
            lemma_count_update(s, terminating_fn(), i, HartPhase::Running);
        },
        HartPhase::Running => {
            lemma_count_update(s, terminating_fn(), i, HartPhase::Leaving);
        },
        HartPhase::Leaving => {
            // a hart between increment and decrement is counted, so the
            // counter was positive: no hart held the termination duty yet
            lemma_count_pos(s, counted_fn(), i);
            if pre.counter == 1 {
                lemma_count_update(s, terminating_fn(), i, HartPhase::Terminating);
            } else {
                lemma_count_update(s, terminating_fn(), i, HartPhase::Exited);
            }
        },
        HartPhase::Terminating => {
            assert(t =~= s);
        },
        HartPhase::Exited => {
        },
    }
}

impl BootSystem {
    /// The state in which the hardware drops all harts at the shared
    /// entry point: everyone arriving, nothing shared initialized.
    pub fn new(n_harts: usize, heap_start: usize, heap_end: usize) -> (s: BootSystem)
        requires
            heap_start < heap_end,
        ensures
            s.inv(),
            s.harts@.len() == n_harts,
            forall|i: int| 0 <= i < n_harts ==> s.harts@[i] is Arriving,
            s.counter == 0,
            s.ready == false,
            s.heap is None,
            s.init_calls == 0,
            s.terminate_calls == 0,
            !s.terminated,
            s.heap_start == heap_start,
            s.heap_end == heap_end,
    {
        let mut harts: Vec<HartPhase> = Vec::new();
        let mut k: usize = 0;
        while k < n_harts
            invariant
                k <= n_harts,
                harts@.len() == k,
                forall|i: int| 0 <= i < k ==> harts@[i] is Arriving,
            decreases n_harts - k,
        {
            harts.push(HartPhase::Arriving);
            k = k + 1;
        }
        let s = BootSystem {
            harts,
            counter: 0,
            ready: false,
            heap: None,
            heap_start,
            heap_end,
            init_calls: 0,
            terminate_calls: 0,
            terminated: false,
        };
        proof {
            assert(forall|j: int| 0 <= j < s.n() ==> !(counted_fn()(s.harts@[j])));
            lemma_count_none(s.harts@, counted_fn());
            if n_harts > 0 {
                assert(s.phase(0) is Arriving);
                assert(!s.all_entered());
            }
        }
        s
    }

    /// Perform hart `hart`'s next atomic operation, feeding it `event`,
    /// and say what the outside world owes back before this hart can
    /// step again.  Any interleaving of calls — one per hart operation —
    /// models one concurrent boot, and each call preserves the
    /// invariant, and the settled predicate once it holds.
    pub fn step(&mut self, hart: usize, event: BootEvent) -> (action: BootAction)
        requires
            old(self).inv(),
            !old(self).terminated,
            hart < old(self).harts@.len(),
            event_fits(old(self).harts@[hart as int], event),
        ensures
            final(self).inv(),
            step_rel(*old(self), hart as int, event, *final(self), action),
            old(self).settled() ==> final(self).settled(),
    {
        let ghost pre = *self;
        let i = hart;
        let p = self.harts[i];
        let action = match p {
            HartPhase::Arriving => {
                let n = self.harts.len();
                proof {
                    assert(pre.harts@.len() == n);
                    // the arriving hart is not yet counted, so the
                    // counter stays below the hart count and cannot wrap
                    lemma_count_update(pre.harts@, counted_fn(), i as int, HartPhase::Probing);
                    lemma_count_bounds(
                        pre.harts@.update(i as int, HartPhase::Probing),
                        counted_fn(),
                    );
                }
                self.harts.set(i, HartPhase::Probing);
                self.counter = self.counter + 1;
                BootAction::IssueProbe(sbi::probe_request())
            },
            HartPhase::Probing => {
                match event {
                    BootEvent::ProbeReply(r) => {
                        let expected = sbi::is_diosix(&r);
                        if expected && i == 0 {
                            self.harts.set(i, HartPhase::Initializing);
                        } else if expected {
                            self.harts.set(i, HartPhase::Waiting);
                        } else {
                            // absent or foreign host: skip the guest,
                            // but stay in the counter bookkeeping
                            self.harts.set(i, HartPhase::Leaving);
                        }
                        BootAction::Proceed
                    },
                    _ => unreached(),
                }
            },
            HartPhase::Initializing => {
                proof {
                    // only hart 0 reaches this phase, and only before
                    // the heap exists, so the init tally cannot wrap
                    assert(pre.phase(i as int) is Initializing);
                    assert(pre.heap is None);
                }
                let region = init(self.heap_start, self.heap_end);
                self.heap = Some(region);
                self.init_calls = self.init_calls + 1;
                self.harts.set(i, HartPhase::Publishing);
                BootAction::InitHeap(region)
            },
            HartPhase::Publishing => {
                self.ready = true;
                self.harts.set(i, HartPhase::Running);
                BootAction::RunMain
            },
            HartPhase::Waiting => {
                // the take-and-restore exchange: unconditionally take the
                // flag down while reading what it was
                let took = self.ready;
                self.ready = false;
                if took {
                    self.harts.set(i, HartPhase::Restoring);
                    BootAction::Proceed
                } else {
                    self.harts.set(i, HartPhase::Waiting);
                    BootAction::KeepWaiting
                }
            },
            HartPhase::Restoring => {
                // hand the flag back so exactly one more waiter may pass
                self.ready = true;
                self.harts.set(i, HartPhase::Running);
                BootAction::RunMain
            },
            HartPhase::Running => {
                match event {
                    BootEvent::MainReturned => {
                        self.harts.set(i, HartPhase::Leaving);
                        BootAction::Proceed
                    },
                    _ => unreached(),
                }
            },
            HartPhase::Leaving => {
                proof {
                    // a leaving hart is still counted, so the counter is
                    // positive and the decrement cannot wrap
                    lemma_count_pos(pre.harts@, counted_fn(), i as int);
                }
                let was = self.counter;
                self.counter = self.counter - 1;
                if was == 1 {
                    self.harts.set(i, HartPhase::Terminating);
                } else {
                    self.harts.set(i, HartPhase::Exited);
                }
                BootAction::Proceed
            },
            HartPhase::Terminating => {
                self.harts.set(i, HartPhase::Terminating);
                self.terminate_calls = self.terminate_calls + 1;
                self.terminated = true;
                BootAction::IssueTerminate(sbi::exit(0))
            },
            HartPhase::Exited => unreached(),
        };
        proof {
            lemma_step_preserves_inv(pre, i as int, event, *self, action);
            if pre.settled() {
                lemma_step_preserves_settled(pre, i as int, event, *self, action);
            }
        }
        action
    }
}

/// Setup happens exactly once, and before any guest execution: in every
/// reachable state at most one heap initialization was ever issued, only
/// hart 0 is ever on the electing path, and a hart executing the guest
/// application implies the one initialization is complete.
pub proof fn lemma_one_time_setup(s: BootSystem)
    requires
        s.inv(),
    ensures
        s.init_calls <= 1,
        forall|i: int|
            0 <= i < s.n() && s.phase(i) is Running ==> s.heap is Some && s.init_calls == 1,
        forall|i: int|
            0 <= i < s.n() && (s.phase(i) is Initializing || s.phase(i) is Publishing) ==> i == 0,
{
}

/// Termination is unique: once the boot has settled — every hart
/// entered — at most one hart ever holds the termination duty, and at
/// most one termination request is ever issued.
pub proof fn lemma_single_termination(s: BootSystem)
    requires
        s.inv(),
        s.settled(),
    ensures
        s.terminate_calls <= 1,
        s.terminating_count() <= 1,
        forall|i: int, j: int|
            0 <= i < s.n() && 0 <= j < s.n() && s.phase(i) is Terminating && s.phase(j)
                is Terminating ==> i == j,
{
    assert forall|i: int, j: int|
        0 <= i < s.n() && 0 <= j < s.n() && s.phase(i) is Terminating && s.phase(j)
            is Terminating implies i == j by {
        if i != j {
            lemma_count_two(s.harts@, terminating_fn(), i, j);
        }
    }
}

/// Termination is owed: once every hart has entered and the counter has
/// drained without a termination request yet, some hart holds the duty —
/// the counter's one-to-zero transition appointed it.
pub proof fn lemma_drained_counter_terminates(s: BootSystem)
    requires
        s.inv(),
        s.n() >= 1,
        s.all_entered(),
        s.counter == 0,
        !s.terminated,
    ensures
        exists|i: int| 0 <= i < s.n() && s.phase(i) is Terminating,
{
    lemma_count_exists(s.harts@, terminating_fn());
    let j = choose|j: int| 0 <= j < s.harts@.len() && terminating_fn()(s.harts@[j]);
    assert(0 <= j < s.n() && s.phase(j) is Terminating);
}

/// A hart whose probe reply names a foreign or absent host skips guest
/// execution entirely — it moves straight to leaving, with no run
/// action — yet stays in the counter bookkeeping, so it still lets the
/// counter drain and termination trigger.
pub proof fn lemma_foreign_host_participates(
    pre: BootSystem,
    i: int,
    r: SyscallResult,
    post: BootSystem,
    action: BootAction,
)
    requires
        pre.inv(),
        0 <= i < pre.n(),
        pre.phase(i) is Probing,
        !(r.spec_error() == 0 && r.spec_value1() == SBI_DIOSIX_IMPL_ID),
        step_rel(pre, i, BootEvent::ProbeReply(r), post, action),
    ensures
        post.phase(i) is Leaving,
        post.counter == pre.counter,
        action == BootAction::Proceed,
        post.counted_count() == pre.counted_count(),
{
    lemma_count_update(pre.harts@, counted_fn(), i, HartPhase::Leaving);
}

} // verus!
