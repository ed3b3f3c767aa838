//! The laws of the boundary layer, stated and proved once over the
//! specifications that the operations' own contracts use.

use vstd::prelude::*;
use crate::exec::SpecOutcome;
use crate::guard::settop_seq;
use crate::refpool::RefThread;
use crate::state::Lua;
use crate::state::ValueRef;
use crate::thread::spec_resumable;
use crate::thread::spec_resume_end;
use crate::thread::spec_thread_status;
use crate::thread::ThreadStatus;
use crate::util::capsule_reserve_activate;
use crate::util::capsule_reserve_release;
use crate::value::Value;
use crate::value::WrappedFailure;

verus! {

/// Stack balance: whatever a guarded scope did to an interpreter stack,
/// closing the guard leaves exactly the recorded depth plus the slots
/// explicitly kept, on every exit path.
pub proof fn lemma_stack_balance(s: Seq<Value>, saved: int, kept: int)
    requires
        saved >= 0,
        kept >= 0,
    ensures
        settop_seq(s, saved + kept).len() == saved + kept,
{
}

/// Reference slot uniqueness: the value a pool slot pins is a function
/// of the slot alone, so two live references that occupy the same
/// `(thread_index, slot_index)` always refer to the same value — no two
/// live references to different values share a slot.
pub proof fn lemma_ref_slot_uniqueness(lua: &Lua, r1: ValueRef, r2: ValueRef)
    requires
        lua.wf(),
        lua.valid_ref(r1),
        lua.valid_ref(r2),
        r1.aux_thread == r2.aux_thread,
        r1.index == r2.index,
    ensures
        lua.ref_value(r1) == lua.ref_value(r2),
{
}

/// Release idempotence: once a slot has been released to the free list,
/// it holds only the nil placeholder — its previous occupant is no
/// longer reachable through it, so reacquiring it can never expose a
/// value still referenced elsewhere.
pub proof fn lemma_release_idempotence(th: &RefThread, i: usize)
    requires
        th.wf(),
        th.in_free(i),
    ensures
        !th.live(i),
        th.slots@[i as int] is Nil,
{
    let k = choose|k: int| 0 <= k < th.free@.len() && th.free@[k] == i;
    assert(th.slots@[th.free@[k] as int] is Nil);
}

/// Capsule pool conservation: one boundary trip either returns its
/// reservation unused or activates it for a stored failure; the two
/// transitions contradict each other, so a capsule is never both
/// released and activated.
pub proof fn lemma_capsule_conservation(a: &Lua, b: &Lua, failure: WrappedFailure, cap: usize)
    requires
        a.wf(),
    ensures
        !(capsule_reserve_release(a, b) && capsule_reserve_activate(a, b, failure, cap)),
{
    if capsule_reserve_release(a, b) && capsule_reserve_activate(a, b, failure, cap) {
        if a.failure_top > 0 {
            assert(b.failure_top == a.failure_top);
            assert(b.failure_top == a.failure_top - 1);
        } else {
            assert(b.objects@.last() == crate::value::LuaObj::Capsule(None));
            assert(b.objects@.last() == crate::value::LuaObj::Capsule(Some(failure)));
        }
    }
}

/// Resume state machine, refusal side: a thread that shows as finished
/// or as currently running is never resumable, so resuming it fails
/// with the unresumable condition and executes no thread code (as the
/// resume contract states for every non-resumable thread).
pub proof fn lemma_unresumable(lua: &Lua, tid: usize)
    requires
        lua.wf(),
        tid < lua.threads@.len(),
        spec_thread_status(lua, tid) == ThreadStatus::Finished || spec_thread_status(lua, tid)
            == ThreadStatus::Running,
    ensures
        !spec_resumable(lua, tid),
{
}

/// Resume state machine, argument side: a resumable thread with `n`
/// staged arguments resumed with `k` more runs its body on exactly the
/// staged arguments followed by the new ones — `n + k` values visible.
pub proof fn lemma_resume_args(lua: &Lua, tid: usize, args: Seq<Value>)
    requires
        lua.wf(),
        spec_resumable(lua, tid),
    ensures
        ({
            let td = lua.threads@[tid as int];
            let f = td.frame->Some_0;
            spec_resume_end(lua, tid, args) == crate::exec::spec_exec(
                f.program@,
                f.pc as int,
                f.acc,
                td.stack@ + args,
            ) && (td.stack@ + args).len() == td.stack@.len() + args.len()
        }),
{
}

/// Panic fidelity, one-way seal: what the boundary stores for a panic
/// outcome is the payload itself, caught whole; see the retrieval law
/// next to the conversion routine for the round trip back into host
/// code.
pub proof fn lemma_panic_sealed(end_outcome: SpecOutcome, failure: WrappedFailure)
    requires
        end_outcome is Panicked,
        crate::util::spec_wrapped_failure(end_outcome, true, failure),
    ensures
        failure matches WrappedFailure::Panic(p) && p matches Some(pay) && pay.text()
            == end_outcome->Panicked_0,
{
}

/// Stack guard composition: nested guards on the same thread compose by
/// last-opened-first-closed restoration — restoring to the inner mark
/// and then to the outer one leaves exactly what restoring to the outer
/// mark alone would.
pub proof fn lemma_guard_composition(s: Seq<Value>, outer: int, inner: int)
    requires
        0 <= outer <= inner,
    ensures
        settop_seq(settop_seq(s, inner), outer) == settop_seq(s, outer),
{
    if s.len() >= inner {
        assert(settop_seq(settop_seq(s, inner), outer) =~= settop_seq(s, outer));
    } else if s.len() >= outer {
        assert(settop_seq(s, inner).len() == inner);
        assert(settop_seq(settop_seq(s, inner), outer) =~= settop_seq(s, outer));
    } else {
        assert(settop_seq(settop_seq(s, inner), outer) =~= settop_seq(s, outer));
    }
}

} // verus!
