//! The concurrency model of the callback-lifetime bridge.
//!
//! Callback invocations originate from threads outside the library's
//! control, potentially concurrently with each other and with teardown. This
//! module models every such interleaving as a sequence of atomic steps over
//! the bridge's shared state — the native registration, the execution latch
//! and the handler allocation — and proves the teardown-race guarantees over
//! all of them: no invocation ever runs against freed handler memory, no
//! invocation occurs once the unregister step has completed, a disabled latch
//! admits no entry ever again, and each delivered event yields at most one
//! handler invocation.

use vstd::prelude::*;

use crate::latch::{latch_disable, latch_enter, latch_exit, LatchModel};

verus! {

/// The shared state the native threads and the teardown coordinator race
/// over: whether the native service still delivers events, the execution
/// latch, whether the handler allocation has been released, and how many
/// handler invocations have begun.
pub struct ProtoState {
    /// The native service still delivers notifications for the bridge's
    /// registration.
    pub registered: bool,
    /// The execution latch every delivery enters through.
    pub latch: LatchModel,
    /// The handler allocation has been released by teardown.
    pub freed: bool,
    /// How many handler invocations have begun.
    pub invocations: nat,
}

/// One atomic step of a native thread or of the teardown coordinator.
pub enum ProtoStep {
    /// A native thread attempts to begin a delivery: the latch's
    /// test-and-set. The native service only fires while the registration
    /// stands — its documented contract is that no invocation happens after
    /// the unregister call returns.
    Enter,
    /// The in-flight callback body completes and leaves the latch.
    Exit,
    /// Teardown's first step completes: the native service confirms it will
    /// deliver no further notification.
    Unregister,
    /// Teardown's second step: the latch is disabled, one-way.
    Disable,
    /// Teardown's final step: the handler allocation is released. The
    /// coordinator performs it only once the latch is shut, the drain has
    /// observed no invocation in flight, and the unregister has completed.
    Free,
}

/// The state at manager construction: registered, latch idle, handler owned,
/// nothing delivered yet.
pub open spec fn proto_init() -> ProtoState {
    ProtoState {
        registered: true,
        latch: LatchModel { disabled: false, executing: false },
        freed: false,
        invocations: 0,
    }
}

/// How one step changes the shared state. A step whose guard does not hold
/// changes nothing: a blocked entry attempt is discarded, and the
/// coordinator does not release the handler before the drain condition
/// holds.
pub open spec fn proto_apply(s: ProtoState, step: ProtoStep) -> ProtoState {
    match step {
        ProtoStep::Enter => {
            if s.registered && latch_enter(s.latch).1 {
                ProtoState {
                    latch: latch_enter(s.latch).0,
                    invocations: s.invocations + 1,
                    ..s
                }
            } else {
                s
            }
        },
        ProtoStep::Exit => {
            if s.latch.executing {
                ProtoState { latch: latch_exit(s.latch), ..s }
            } else {
                s
            }
        },
        ProtoStep::Unregister => ProtoState { registered: false, ..s },
        ProtoStep::Disable => ProtoState { latch: latch_disable(s.latch), ..s },
        ProtoStep::Free => {
            if s.latch.disabled && !s.latch.executing && !s.registered {
                ProtoState { freed: true, ..s }
            } else {
                s
            }
        },
    }
}

/// The state after a whole interleaving of steps has run.
pub open spec fn proto_run(s: ProtoState, steps: Seq<ProtoStep>) -> ProtoState
    decreases steps.len(),
{
    if steps.len() == 0 {
        s
    } else {
        proto_run(proto_apply(s, steps[0]), steps.skip(1))
    }
}

/// The safety invariant of the race: once the handler allocation is freed,
/// the latch is shut and drained and the registration is gone — so no
/// invocation is in flight, and none can begin.
pub open spec fn proto_inv(s: ProtoState) -> bool {
    s.freed ==> (s.latch.disabled && !s.latch.executing && !s.registered)
}

/// Every single step preserves the safety invariant.
pub proof fn lemma_step_preserves_inv(s: ProtoState, step: ProtoStep)
    requires
        proto_inv(s),
    ensures
        proto_inv(proto_apply(s, step)),
{
}

/// Every interleaving preserves the safety invariant.
pub proof fn lemma_run_preserves_inv(s: ProtoState, steps: Seq<ProtoStep>)
    requires
        proto_inv(s),
    ensures
        proto_inv(proto_run(s, steps)),
    decreases steps.len(),
{
    if steps.len() > 0 {
        lemma_step_preserves_inv(s, steps[0]);
        lemma_run_preserves_inv(proto_apply(s, steps[0]), steps.skip(1));
    }
}

/// No invocation ever accesses freed handler memory: at every point of every
/// interleaving started at construction, an in-flight invocation and a freed
/// handler never coexist.
pub proof fn lemma_no_use_after_free(steps: Seq<ProtoStep>, i: int)
    requires
        0 <= i <= steps.len(),
    ensures
        !(proto_run(proto_init(), steps.take(i)).freed && proto_run(
            proto_init(),
            steps.take(i),
        ).latch.executing),
{
    lemma_run_preserves_inv(proto_init(), steps.take(i));
}

/// Once the unregister step has been observed to complete, zero handler
/// invocations occur, whatever events race against the teardown: the
/// registration never returns, and the invocation count stays where it was.
pub proof fn lemma_no_invocation_after_unregister(s: ProtoState, steps: Seq<ProtoStep>)
    requires
        !s.registered,
    ensures
        !proto_run(s, steps).registered,
        proto_run(s, steps).invocations == s.invocations,
    decreases steps.len(),
{
    if steps.len() > 0 {
        lemma_no_invocation_after_unregister(proto_apply(s, steps[0]), steps.skip(1));
    }
}

/// Once the latch is disabled it stays disabled, and a burst of attempted
/// invocations of any length yields zero successful entries: the invocation
/// count stays where it was.
pub proof fn lemma_disabled_rejects_all(s: ProtoState, steps: Seq<ProtoStep>)
    requires
        s.latch.disabled,
    ensures
        proto_run(s, steps).latch.disabled,
        proto_run(s, steps).invocations == s.invocations,
    decreases steps.len(),
{
    if steps.len() > 0 {
        lemma_disabled_rejects_all(proto_apply(s, steps[0]), steps.skip(1));
    }
}

/// The teardown sequence is not only safe but effective: run in its strict
/// order — unregister, disable, then free once no invocation is in flight —
/// it always releases the handler.
pub proof fn lemma_teardown_sequence_frees(s: ProtoState)
    requires
        !s.latch.executing,
    ensures
        proto_run(
            s,
            seq![ProtoStep::Unregister, ProtoStep::Disable, ProtoStep::Free],
        ).freed,
{
    let steps = seq![ProtoStep::Unregister, ProtoStep::Disable, ProtoStep::Free];
    let s1 = proto_apply(s, ProtoStep::Unregister);
    let s2 = proto_apply(s1, ProtoStep::Disable);
    let s3 = proto_apply(s2, ProtoStep::Free);
    assert(steps.skip(1) =~= seq![ProtoStep::Disable, ProtoStep::Free]);
    assert(steps.skip(1).skip(1) =~= seq![ProtoStep::Free]);
    assert(steps.skip(1).skip(1).skip(1) =~= Seq::<ProtoStep>::empty());
    assert(proto_run(s, steps) == proto_run(s1, steps.skip(1)));
    assert(proto_run(s1, steps.skip(1)) == proto_run(s2, steps.skip(1).skip(1)));
    assert(proto_run(s2, steps.skip(1).skip(1)) == proto_run(s3, steps.skip(1).skip(1).skip(1)));
    assert(s3.freed);
}

/// How many entry attempts an interleaving contains.
pub open spec fn count_enters(steps: Seq<ProtoStep>) -> nat
    decreases steps.len(),
{
    if steps.len() == 0 {
        0
    } else {
        (if steps[0] is Enter {
            1nat
        } else {
            0nat
        }) + count_enters(steps.skip(1))
    }
}

/// At most one handler invocation occurs per fired event: across any
/// interleaving, the invocation count grows by no more than the number of
/// entry attempts.
pub proof fn lemma_at_most_one_invocation_per_event(s: ProtoState, steps: Seq<ProtoStep>)
    ensures
        proto_run(s, steps).invocations <= s.invocations + count_enters(steps),
    decreases steps.len(),
{
    if steps.len() > 0 {
        lemma_at_most_one_invocation_per_event(proto_apply(s, steps[0]), steps.skip(1));
    }
}

} // verus!
