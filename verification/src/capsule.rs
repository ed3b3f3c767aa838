//! The failure capsule pool.
//!
//! A capsule is an interpreter-visible container carrying a host error or
//! a caught host panic across the boundary. One is reserved *before* any
//! fallible host code runs, so that reporting a failure never itself
//! needs an allocation that could fail; it is populated only on failure
//! and returned to the pool unused on success. Pooled capsules live in
//! slots of the internal reference thread.

use vstd::prelude::*;
use crate::error::Error;
use crate::error::ErrorKind;
use crate::state::Lua;
use crate::value::LuaObj;
use crate::value::Value;
use crate::value::WrappedFailure;

verus! {

/// A reservation of one failure capsule. Exactly one of
/// [`PreallocatedFailure::release`] (the reservation was not needed) or
/// [`PreallocatedFailure::activate`] (a failure was stored) consumes it.
pub enum PreallocatedFailure {
    /// A freshly allocated capsule, not yet pooled; its heap index.
    New(usize),
    /// A reservation drawn from the pool's availability count.
    Reserved,
}

impl PreallocatedFailure {
    /// Whether this reservation is consistent with the interpreter state:
    /// a fresh capsule points at a capsule object; a pooled reservation
    /// has a pooled capsule left beyond the availability count.
    pub open spec fn wf_token(&self, lua: &Lua) -> bool {
        match self {
            PreallocatedFailure::New(id) => *id < lua.objects@.len() && lua.objects@[*id as int]
                is Capsule,
            PreallocatedFailure::Reserved => lua.failure_top < lua.failure_pool@.len(),
        }
    }

    /// Reserves a capsule: draws one from the pool when available, else
    /// allocates a fresh interpreter-visible container (the slow path,
    /// on first use). Fails only when the pool is empty and the memory
    /// limit refuses the allocation; no host code has run yet then.
    pub fn reserve(lua: &mut Lua) -> (r: Result<PreallocatedFailure, Error>)
        requires
            old(lua).wf(),
            old(lua).objects@.len() < usize::MAX,
        ensures
            final(lua).wf(),
            r is Err <==> (old(lua).failure_top == 0 && old(lua).alloc_would_fail()),
            r matches Err(e) ==> e.spec_kind() == ErrorKind::Memory && final(lua).heap_unchanged(
                old(lua),
            ) && final(lua).failure_unchanged(old(lua)),
            r matches Ok(tok) ==> tok.wf_token(&*final(lua)),
            r matches Ok(tok) ==> match tok {
                PreallocatedFailure::Reserved => {
                    &&& old(lua).failure_top > 0
                    &&& final(lua).failure_top == old(lua).failure_top - 1
                    &&& final(lua).failure_pool == old(lua).failure_pool
                    &&& final(lua).heap_unchanged(old(lua))
                },
                PreallocatedFailure::New(id) => {
                    &&& old(lua).failure_top == 0
                    &&& final(lua).failure_unchanged(old(lua))
                    &&& id == old(lua).objects@.len()
                    &&& final(lua).objects@ == old(lua).objects@.push(
                        LuaObj::Capsule(None),
                    )
                },
            },
            final(lua).refs_unchanged(old(lua)),
            final(lua).threads_unchanged(old(lua)),
            final(lua).misc_unchanged(old(lua)),
    {
        if lua.failure_top > 0 {
            lua.failure_top = lua.failure_top - 1;
            return Ok(PreallocatedFailure::Reserved);
        }
        match lua.alloc_obj(LuaObj::Capsule(None)) {
            Ok(id) => Ok(PreallocatedFailure::New(id)),
            Err(e) => Err(e),
        }
    }

    /// Activates the reservation on the failure path: stores the failure
    /// in the capsule and returns the capsule's heap index, consuming
    /// one pool slot for a pooled reservation.
    pub fn activate(self, lua: &mut Lua, failure: WrappedFailure) -> (id: usize)
        requires
            old(lua).wf(),
            self.wf_token(old(lua)),
        ensures
            final(lua).wf(),
            id < final(lua).objects@.len(),
            final(lua).objects@ == old(lua).objects@.update(
                id as int,
                LuaObj::Capsule(Some(failure)),
            ),
            final(lua).mem_used == old(lua).mem_used,
            final(lua).failure_top == old(lua).failure_top,
            self matches PreallocatedFailure::New(nid) ==> id == nid,
            self is Reserved ==> final(lua).failure_pool@ == old(lua).failure_pool@.drop_last(),
            self is New ==> final(lua).failure_pool == old(lua).failure_pool,
            final(lua).threads_unchanged(old(lua)),
            final(lua).ref_threads == old(lua).ref_threads,
            final(lua).misc_unchanged(old(lua)),
    {
        match self {
            PreallocatedFailure::New(id) => {
                lua.objects[id] = LuaObj::Capsule(Some(failure));
                proof {
                    assert forall|k: int|
                        0 <= k < lua.failure_pool@.len() implies lua.capsule_slot_ok(
                        #[trigger] lua.failure_pool@[k],
                    ) by {
                        assert(old(lua).capsule_slot_ok(lua.failure_pool@[k]));
                    }
                }
                id
            }
            PreallocatedFailure::Reserved => {
                let slot = match lua.failure_pool.pop() {
                    Some(s) => s,
                    None => {
                        proof {
                            assert(false);
                        }
                        0
                    }
                };
                proof {
                    assert(old(lua).failure_pool@.last() == slot);
                    assert(old(lua).capsule_slot_ok(slot));
                }
                let v = *lua.ref_internal.read(slot);
                let id = match v {
                    Value::Obj(id) => id,
                    _ => {
                        proof {
                            assert(false);
                        }
                        0
                    }
                };
                lua.ref_internal.release(slot);
                lua.objects[id] = LuaObj::Capsule(Some(failure));
                proof {
                    assert forall|k: int|
                        0 <= k < lua.failure_pool@.len() implies lua.capsule_slot_ok(
                        #[trigger] lua.failure_pool@[k],
                    ) by {
                        assert(old(lua).failure_pool@[k] == lua.failure_pool@[k]);
                        assert(old(lua).capsule_slot_ok(lua.failure_pool@[k]));
                        assert(lua.failure_pool@[k] != slot);
                        assert(lua.ref_internal.live(lua.failure_pool@[k]));
                        assert(lua.ref_internal.slots@[lua.failure_pool@[k] as int] == old(
                            lua,
                        ).ref_internal.slots@[lua.failure_pool@[k] as int]);
                    }
                }
                id
            }
        }
    }

    /// Releases an unused reservation on the success path: returns it to
    /// the pool, never writing into it. A fresh capsule is parked in an
    /// internal reference slot and pooled; a pooled reservation just
    /// raises the availability count again.
    pub fn release(self, lua: &mut Lua)
        requires
            old(lua).wf(),
            self.wf_token(old(lua)),
        ensures
            final(lua).wf(),
            final(lua).heap_unchanged(old(lua)),
            final(lua).threads_unchanged(old(lua)),
            final(lua).misc_unchanged(old(lua)),
            final(lua).ref_threads == old(lua).ref_threads,
            self is Reserved ==> final(lua).failure_top == old(lua).failure_top + 1
                && final(lua).failure_pool == old(lua).failure_pool && final(lua).ref_internal
                == old(lua).ref_internal,
            self is New ==> {
                ||| (final(lua).failure_top == old(lua).failure_top + 1
                    && final(lua).failure_pool@.len() == old(lua).failure_pool@.len() + 1)
                ||| (final(lua).failure_top == old(lua).failure_top && final(lua).failure_pool
                    == old(lua).failure_pool && final(lua).ref_internal == old(lua).ref_internal)
            },
    {
        match self {
            PreallocatedFailure::Reserved => {
                let n = lua.failure_pool.len();
                proof {
                    assert(lua.failure_top < n);
                }
                lua.failure_top = lua.failure_top + 1;
            }
            PreallocatedFailure::New(id) => {
                let got = lua.ref_internal.try_acquire();
                match got {
                    Some((slot, _replaced)) => {
                        lua.ref_internal.write(slot, Value::Obj(id));
                        lua.failure_pool.push(slot);
                        let n = lua.failure_pool.len();
                        proof {
                            assert(lua.failure_top < n);
                        }
                        lua.failure_top = lua.failure_top + 1;
                        proof {
                            assert(lua.failure_pool@ == old(lua).failure_pool@.push(slot));
                            assert forall|k: int|
                                0 <= k < lua.failure_pool@.len() implies lua.capsule_slot_ok(
                                #[trigger] lua.failure_pool@[k],
                            ) by {
                                if k < old(lua).failure_pool@.len() {
                                    assert(old(lua).capsule_slot_ok(lua.failure_pool@[k]));
                                    assert(lua.failure_pool@[k] != slot) by {
                                        if lua.failure_pool@[k] == slot {
                                            assert(old(lua).ref_internal.live(slot));
                                        }
                                    }
                                    assert(lua.ref_internal.live(lua.failure_pool@[k]));
                                    assert(lua.ref_internal.slots@[lua.failure_pool@[k] as int]
                                        == old(lua).ref_internal.slots@[lua.failure_pool@[
                                        k] as int]);
                                } else {
                                    assert(lua.failure_pool@[k] == slot);
                                }
                            }
                            assert(lua.failure_pool@.no_duplicates()) by {
                                assert forall|k1: int, k2: int|
                                    0 <= k1 < k2 < lua.failure_pool@.len() implies lua.failure_pool@[
                                    k1] != lua.failure_pool@[k2] by {
                                    if k2 == lua.failure_pool@.len() - 1 {
                                        assert(lua.failure_pool@[k2] == slot);
                                        assert(old(lua).capsule_slot_ok(
                                            old(lua).failure_pool@[k1],
                                        ));
                                        if lua.failure_pool@[k1] == slot {
                                            assert(old(lua).ref_internal.live(slot));
                                        }
                                    }
                                }
                            }
                        }
                    }
                    None => {
                        // The internal reference thread can grow no
                        // further; the fresh capsule is abandoned rather
                        // than pooled. Unreachable in practice: the
                        // internal thread has no growth ceiling.
                    }
                }
            }
        }
    }
}

} // verus!
