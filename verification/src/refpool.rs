//! The reference thread pool.
//!
//! A reference thread is an auxiliary interpreter thread used purely as a
//! slot array: its stack pins long-lived values against collection. Each
//! thread tracks its current top, its reserved stack capacity, a growth
//! ceiling, and a free list of reclaimed slot indices.
//!
//! Invariant: a slot index is either live (it holds exactly one referenced
//! value) or present in the free list, never both. A thread grows by
//! doubling its reserved capacity; once the ceiling is reached the pool
//! appends a new reference thread, so the pool as a whole is unbounded.

use vstd::prelude::*;
use crate::value::Value;

verus! {

/// Initial reserved capacity of a fresh reference thread, before growth
/// (the interpreter's minimum stack, less a few reserved spaces used to
/// move values in and out of the reference stack).
pub const REF_STACK_INIT: usize = 17;

/// One auxiliary reference thread.
pub struct RefThread {
    /// The value-holding stack; its length is the current top.
    pub slots: Vec<Value>,
    /// Currently reserved stack capacity; the top never exceeds it.
    pub stack_size: usize,
    /// Growth ceiling for the reserved capacity.
    pub max_size: usize,
    /// Indices of reclaimed slots, available for reuse.
    pub free: Vec<usize>,
}

impl RefThread {
    /// Whether slot `i` stands in the free list.
    pub open spec fn in_free(&self, i: usize) -> bool {
        self.free@.contains(i)
    }

    /// Whether slot `i` is live: below the top and not reclaimed.
    pub open spec fn live(&self, i: usize) -> bool {
        i < self.slots.len() && !self.in_free(i)
    }

    /// Well-formedness: capacity bounds hold, the free list names only
    /// slots below the top, names no slot twice, and every reclaimed slot
    /// holds the nil placeholder.
    pub open spec fn wf(&self) -> bool {
        &&& 1 <= self.stack_size
        &&& self.slots.len() <= self.stack_size
        &&& self.stack_size <= self.max_size
        &&& forall|k: int|
            0 <= k < self.free@.len() ==> (#[trigger] self.free@[k]) < self.slots@.len()
        &&& self.free@.no_duplicates()
        &&& forall|k: int|
            0 <= k < self.free@.len() ==> self.slots@[#[trigger] self.free@[k] as int] is Nil
    }

    /// A fresh reference thread with the given growth ceiling.
    pub fn new(max_size: usize) -> (r: RefThread)
        requires
            max_size >= 1,
        ensures
            r.wf(),
            r.slots.len() == 0,
            r.free@.len() == 0,
            r.max_size == max_size,
    {
        let init: usize = if REF_STACK_INIT <= max_size { REF_STACK_INIT } else { max_size };
        RefThread { slots: Vec::new(), stack_size: init, max_size, free: Vec::new() }
    }

    /// Tries to hand out a slot: first a reclaimed one off the free list,
    /// then unused headroom below the reserved capacity, growing the
    /// capacity by doubling up to the ceiling. Returns the slot index and
    /// whether it already holds a stale placeholder that the caller must
    /// overwrite in place (as opposed to a virgin top-of-stack slot).
    pub fn try_acquire(&mut self) -> (r: Option<(usize, bool)>)
        requires
            old(self).wf(),
        ensures
            final(self).wf(),
            final(self).max_size == old(self).max_size,
            r is None ==> *final(self) == *old(self),
            r is None ==> old(self).slots@.len() >= old(self).max_size,
            r matches Some((i, replaced)) ==> {
                &&& !old(self).live(i)
                &&& final(self).live(i)
                &&& replaced == old(self).in_free(i)
                &&& !replaced ==> i == old(self).slots@.len()
                &&& final(self).slots@ == if replaced {
                    old(self).slots@
                } else {
                    old(self).slots@.push(Value::Nil)
                }
                &&& forall|j: usize|
                    j != i ==> (#[trigger] final(self).live(j)) == old(self).live(j)
            },
    {
        if self.free.len() > 0 {
            let popped = self.free.pop();
            let f = match popped {
                Some(f) => f,
                None => {
                    proof {
                        assert(false);
                    }
                    0
                }
            };
            proof {
                assert(old(self).free@[old(self).free@.len() - 1] == f);
                assert(old(self).in_free(f));
                assert(!self.in_free(f)) by {
                    if self.in_free(f) {
                        let k = choose|k: int| 0 <= k < self.free@.len() && self.free@[k] == f;
                        assert(old(self).free@[k] == f);
                        assert(old(self).free@[old(self).free@.len() - 1] == f);
                    }
                }
                assert forall|j: usize| j != f implies (self.live(j) == old(self).live(j)) by {
                    if old(self).in_free(j) {
                        let k = choose|k: int|
                            0 <= k < old(self).free@.len() && old(self).free@[k] == j;
                        assert(k < old(self).free@.len() - 1);
                        assert(self.free@[k] == j);
                    }
                    if self.in_free(j) {
                        let k = choose|k: int| 0 <= k < self.free@.len() && self.free@[k] == j;
                        assert(old(self).free@[k] == j);
                    }
                }
            }
            return Some((f, true));
        }
        if self.slots.len() >= self.stack_size {
            if self.stack_size >= self.max_size {
                return None;
            }
            // Double the reserved capacity, capped at the ceiling.
            let grown: usize = if self.stack_size <= self.max_size / 2 {
                self.stack_size * 2
            } else {
                self.max_size
            };
            self.stack_size = grown;
        }
        let i = self.slots.len();
        self.slots.push(Value::Nil);
        Some((i, false))
    }

    /// Returns a live slot to the free list: overwrites it with the nil
    /// placeholder and appends its index.
    ///
    /// This must never run while an interpreter-level finalizer is active
    /// on this thread's stack; the caller upholds that.
    pub fn release(&mut self, i: usize)
        requires
            old(self).wf(),
            old(self).live(i),
        ensures
            final(self).wf(),
            final(self).max_size == old(self).max_size,
            final(self).slots@ == old(self).slots@.update(i as int, Value::Nil),
            !final(self).live(i),
            final(self).in_free(i),
            forall|j: usize| j != i ==> (#[trigger] final(self).live(j)) == old(self).live(j),
    {
        self.slots[i] = Value::Nil;
        self.free.push(i);
        proof {
            assert(self.free@ == old(self).free@.push(i));
            assert(self.in_free(i)) by {
                assert(self.free@[self.free@.len() - 1] == i);
            }
            assert forall|j: usize| j != i implies (self.live(j) == old(self).live(j)) by {
                if old(self).in_free(j) {
                    let k = choose|k: int|
                        0 <= k < old(self).free@.len() && old(self).free@[k] == j;
                    assert(self.free@[k] == j);
                }
                if self.in_free(j) {
                    let k = choose|k: int| 0 <= k < self.free@.len() && self.free@[k] == j;
                    assert(k < self.free@.len() - 1 || self.free@[k] == i);
                    assert(old(self).free@[k] == j);
                }
            }
            assert(self.free@.no_duplicates()) by {
                assert forall|k1: int, k2: int|
                    0 <= k1 < k2 < self.free@.len() implies self.free@[k1] != self.free@[k2] by {
                    if k2 == self.free@.len() - 1 {
                        assert(self.free@[k2] == i);
                        assert(old(self).free@[k1] == self.free@[k1]);
                        assert(!old(self).in_free(i));
                    }
                }
            }
        }
    }

    /// Reads the value held by a slot.
    pub fn read(&self, i: usize) -> (r: &Value)
        requires
            self.wf(),
            i < self.slots.len(),
        ensures
            *r == self.slots@[i as int],
    {
        &self.slots[i]
    }

    /// Overwrites a live slot with a value (used right after acquiring a
    /// reclaimed slot, or to pin a value in a fresh one).
    pub fn write(&mut self, i: usize, v: Value)
        requires
            old(self).wf(),
            old(self).live(i),
        ensures
            final(self).wf(),
            final(self).max_size == old(self).max_size,
            final(self).slots@ == old(self).slots@.update(i as int, v),
            final(self).free@ == old(self).free@,
            forall|j: usize| (#[trigger] final(self).live(j)) == old(self).live(j),
    {
        self.slots[i] = v;
        proof {
            assert forall|k: int|
                0 <= k < self.free@.len() implies self.slots@[#[trigger] self.free@[k] as int]
                is Nil by {
                assert(!old(self).in_free(i));
                assert(self.free@[k] != i);
            }
        }
    }
}

/// Well-formedness of every thread in the pool.
pub open spec fn pool_wf(pool: &Vec<RefThread>) -> bool {
    forall|t: int| 0 <= t < pool@.len() ==> (#[trigger] pool@[t]).wf()
}

/// Scans the pool for a thread with a free slot or growth headroom; if
/// none accommodates growth, appends a new reference thread and hands out
/// its first slot. Returns `(thread_index, slot_index, needs_replace)`,
/// where `needs_replace` tells the caller whether the slot already holds a
/// stale placeholder that must be overwritten in place rather than pushed.
pub fn get_next_spot(pool: &mut Vec<RefThread>, max_size: usize) -> (r: (usize, usize, bool))
    requires
        pool_wf(old(pool)),
        old(pool).len() >= 1,
        max_size >= 1,
    ensures
        pool_wf(final(pool)),
        r.0 < final(pool).len(),
        old(pool).len() <= final(pool).len(),
        final(pool).len() <= old(pool).len() + 1,
        final(pool).len() == old(pool).len() + 1 ==> r.0 == old(pool).len(),
        forall|t: int|
            0 <= t < old(pool).len() && t != r.0 ==> #[trigger] final(pool)@[t] == old(pool)@[t],
        r.0 < old(pool).len() ==> !old(pool)@[r.0 as int].live(r.1),
        final(pool)@[r.0 as int].live(r.1),
        r.2 == (r.0 < old(pool).len() && old(pool)@[r.0 as int].in_free(r.1)),
        final(pool)@[r.0 as int].max_size == if r.0 < old(pool).len() {
            old(pool)@[r.0 as int].max_size
        } else {
            max_size
        },
        // Values already stored in the chosen thread stay where they are.
        r.0 < old(pool).len() ==> forall|j: int|
            0 <= j < old(pool)@[r.0 as int].slots@.len() && j != r.1
                ==> #[trigger] final(pool)@[r.0 as int].slots@[j]
                == old(pool)@[r.0 as int].slots@[j],
        forall|t: int, j: usize|
            0 <= t < old(pool).len() && !(t == r.0 && j == r.1)
                ==> (#[trigger] final(pool)@[t].live(j)) == old(pool)@[t].live(j),
{
    let ghost orig = pool@;
    let n = pool.len();
    let mut t: usize = 0;
    while t < n
        invariant
            pool_wf(pool),
            orig == old(pool)@,
            pool@ == orig,
            n == pool@.len(),
            t <= n,
            max_size >= 1,
        decreases n - t,
    {
        let got = pool[t].try_acquire();
        if let Some((i, replaced)) = got {
            proof {
                assert(pool@.len() == orig.len());
                assert(forall|u: int| 0 <= u < orig.len() && u != t ==> pool@[u] == orig[u]);
            }
            return (t, i, replaced);
        }
        proof {
            assert(pool@ =~= orig);
        }
        t += 1;
    }
    // No existing thread can grow further: append a new one and hand out
    // its first slot.
    let mut fresh = RefThread::new(max_size);
    let got = fresh.try_acquire();
    let idx = pool.len();
    match got {
        Some((i, replaced)) => {
            pool.push(fresh);
            (idx, i, replaced)
        }
        None => {
            // Unreachable: a fresh thread always has headroom for its
            // first slot.
            proof {
                assert(false);
            }
            (0, 0, false)
        }
    }
}

} // verus!
