//! The stack guard: scoped restoration of an interpreter stack depth.
//!
//! A guard records a thread's stack depth when opened and, when closed,
//! sets the stack back to exactly that depth (plus any slots explicitly
//! kept), whatever happened in between. Fallible operations open a guard
//! first and close it on every exit path, so the interpreter stack never
//! leaks across them; nested guards on the same thread compose by
//! last-opened-first-closed restoration.

use vstd::prelude::*;
use crate::state::Lua;
use crate::value::Value;

verus! {

/// What restoring a stack to depth `n` leaves: the first `n` values when
/// it was at least that deep, otherwise the old values padded with nil.
pub open spec fn settop_seq(s: Seq<Value>, n: int) -> Seq<Value> {
    if s.len() >= n {
        s.take(n)
    } else {
        s + Seq::new((n - s.len()) as nat, |i: int| Value::Nil)
    }
}

/// A saved stack-top marker for one thread.
pub struct StackGuard {
    pub thread: usize,
    pub saved: usize,
    pub kept: usize,
}

impl StackGuard {
    /// Opens a guard over the current thread, recording its depth.
    pub fn new(lua: &Lua) -> (g: StackGuard)
        requires
            lua.wf(),
        ensures
            g.thread == lua.current,
            g.saved == lua.threads@[lua.current as int].stack@.len(),
            g.kept == 0,
    {
        StackGuard {
            thread: lua.current,
            saved: lua.threads[lua.current].stack.len(),
            kept: 0,
        }
    }

    /// Opens a guard over the given thread with an explicit target depth.
    pub fn with_top(lua: &Lua, thread: usize, top: usize) -> (g: StackGuard)
        requires
            lua.wf(),
            thread < lua.threads@.len(),
        ensures
            g.thread == thread,
            g.saved == top,
            g.kept == 0,
    {
        StackGuard { thread, saved: top, kept: 0 }
    }

    /// Keeps `n` more slots above the saved depth from being truncated
    /// when the guard closes (for a value that must survive the scope,
    /// such as a freshly built metatable handed back to the caller).
    pub fn keep(&mut self, n: usize)
        requires
            old(self).saved + old(self).kept + n <= usize::MAX,
        ensures
            final(self).thread == old(self).thread,
            final(self).saved == old(self).saved,
            final(self).kept == old(self).kept + n,
    {
        self.kept = self.kept + n;
    }

    /// Closes the guard: sets the thread's stack depth to exactly the
    /// recorded depth plus the kept slots, truncating or padding with
    /// nil as the interpreter's set-top operation does. This is the
    /// stack-balance guarantee: the depth after the scope equals the
    /// depth before it, except for slots explicitly kept.
    pub fn restore(self, lua: &mut Lua)
        requires
            old(lua).wf(),
            self.thread < old(lua).threads@.len(),
            self.saved + self.kept <= usize::MAX,
        ensures
            final(lua).wf(),
            final(lua).threads@.len() == old(lua).threads@.len(),
            final(lua).current == old(lua).current,
            final(lua).threads@[self.thread as int].stack@.len() == self.saved + self.kept,
            final(lua).threads@[self.thread as int].stack@ == settop_seq(
                old(lua).threads@[self.thread as int].stack@,
                self.saved + self.kept,
            ),
            final(lua).threads@[self.thread as int].base == old(
                lua,
            ).threads@[self.thread as int].base,
            final(lua).threads@[self.thread as int].frame == old(
                lua,
            ).threads@[self.thread as int].frame,
            forall|t: int|
                0 <= t < old(lua).threads@.len() && t != self.thread
                    ==> #[trigger] final(lua).threads@[t] == old(lua).threads@[t],
            final(lua).refs_unchanged(old(lua)),
            final(lua).failure_unchanged(old(lua)),
            final(lua).heap_unchanged(old(lua)),
            final(lua).misc_unchanged(old(lua)),
    {
        let target = self.saved + self.kept;
        let t = self.thread;
        if lua.threads[t].stack.len() >= target {
            lua.threads[t].stack.truncate(target);
            proof {
                assert(lua.threads@[t as int].stack@ =~= settop_seq(
                    old(lua).threads@[t as int].stack@,
                    target as int,
                ));
            }
        } else {
            while lua.threads[t].stack.len() < target
                invariant
                    old(lua).wf(),
                    t < lua.threads@.len(),
                    lua.threads@.len() == old(lua).threads@.len(),
                    lua.current == old(lua).current,
                    old(lua).threads@[t as int].stack@.len() <= lua.threads@[t as int].stack@.len(),
                    lua.threads@[t as int].stack@.len() <= target,
                    lua.threads@[t as int].stack@ == old(lua).threads@[t as int].stack@ + Seq::new(
                        (lua.threads@[t as int].stack@.len() - old(
                            lua,
                        ).threads@[t as int].stack@.len()) as nat,
                        |i: int| Value::Nil,
                    ),
                    lua.threads@[t as int].base == old(lua).threads@[t as int].base,
                    lua.threads@[t as int].frame == old(lua).threads@[t as int].frame,
                    forall|u: int|
                        0 <= u < old(lua).threads@.len() && u != t ==> #[trigger] lua.threads@[u]
                            == old(lua).threads@[u],
                    lua.refs_unchanged(old(lua)),
                    lua.failure_unchanged(old(lua)),
                    lua.heap_unchanged(old(lua)),
                    lua.misc_unchanged(old(lua)),
                decreases target - lua.threads@[t as int].stack@.len(),
            {
                lua.threads[t].stack.push(Value::Nil);
                proof {
                    assert(lua.threads@[t as int].stack@ =~= old(lua).threads@[t as int].stack@
                        + Seq::new(
                        (lua.threads@[t as int].stack@.len() - old(
                            lua,
                        ).threads@[t as int].stack@.len()) as nat,
                        |i: int| Value::Nil,
                    ));
                }
            }
            proof {
                assert(lua.threads@[t as int].stack@ == settop_seq(
                    old(lua).threads@[t as int].stack@,
                    target as int,
                ));
            }
        }
    }
}

} // verus!
